use vstd::prelude::*;
use crate::ident::Ident;
use crate::ty::Ty;

verus! {

/// The pattern a function parameter is bound to, as far as the extractors
/// read it: a simple identifier, a wildcard, or any other pattern.
pub enum Pat {
    Ident(Ident),
    Wild,
    Other,
}

/// A function parameter: a receiver, or a pattern with a declared type.
pub enum FnArg {
    Receiver,
    Typed { pat: Pat, ty: Box<Ty> },
}

/// A function signature's return type: absent, or a declared type.
pub enum ReturnType {
    Default,
    Type(Box<Ty>),
}

impl FnArg {
    /// The identifier and declared type of a typed parameter bound to a
    /// simple identifier pattern; nothing for any other parameter.
    pub fn typed(&self) -> (r: Option<(&Ident, &Ty)>)
        ensures
            (r is Some) == (*self matches FnArg::Typed { pat: Pat::Ident(_), .. }),
            r is Some ==> (*self matches FnArg::Typed { pat: Pat::Ident(i), ty }
                && *r->Some_0.0 == i && *r->Some_0.1 == *ty),
    {
        match self {
            FnArg::Typed { pat: Pat::Ident(i), ty } => Some((i, &**ty)),
            _ => None,
        }
    }

    /// Whether this parameter is a typed parameter bound to a wildcard
    /// pattern.
    pub fn wild(&self) -> (r: bool)
        ensures
            r == (*self matches FnArg::Typed { pat: Pat::Wild, .. }),
    {
        match self {
            FnArg::Typed { pat: Pat::Wild, .. } => true,
            _ => false,
        }
    }
}

impl ReturnType {
    /// The declared return type, or nothing where the signature leaves the
    /// return type to its default.
    pub fn ty(&self) -> (r: Option<&Ty>)
        ensures
            (r is Some) == (*self is Type),
            r is Some ==> (*self matches ReturnType::Type(t) && *r->Some_0 == *t),
    {
        match self {
            ReturnType::Default => None,
            ReturnType::Type(t) => Some(&**t),
        }
    }
}

} // verus!

