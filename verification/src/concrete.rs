use vstd::prelude::*;
use crate::ident::Ident;
use crate::ty::{NameList, Ty, TyList};

verus! {

/// Whether some identifier of `gens` is named exactly `n`.
pub open spec fn generic_name(n: Seq<char>, gens: Seq<Ident>) -> bool {
    exists|i: int| 0 <= i < gens.len() && gens[i].name@ == n
}

/// The name of a single-segment path, if the list has exactly one name.
pub open spec fn single_name(ns: NameList) -> Option<Seq<char>> {
    match ns {
        NameList::Nil => None,
        NameList::Cons(n, rest) => if *rest is Nil {
            Some(n@)
        } else {
            None
        },
    }
}

/// Whether a path node is a bare mention of one of the identifiers in
/// `gens`: no leading path separator, no arguments, one segment whose name
/// is one of theirs.
pub open spec fn is_generic_path(
    leading_colon: bool,
    names: NameList,
    args: TyList,
    gens: Seq<Ident>,
) -> bool {
    &&& !leading_colon
    &&& args is Nil
    &&& match single_name(names) {
        Some(n) => generic_name(n, gens),
        None => false,
    }
}

/// Whether `t` is concrete with respect to the generic identifiers `gens`:
/// free of bare mentions of them, of existential and inferred types, and of
/// macro-invocation types. A function-pointer type and the never type are
/// concrete whatever they contain.
pub open spec fn is_concrete_spec(t: Ty, gens: Seq<Ident>) -> bool
    decreases t,
{
    match t {
        Ty::Path { leading_colon, names, args } => if is_generic_path(
            leading_colon,
            names,
            args,
            gens,
        ) {
            false
        } else {
            all_concrete(args, gens)
        },
        Ty::Mac { .. } => false,
        Ty::ImplTrait { .. } => false,
        Ty::Infer => false,
        Ty::BareFn { .. } => true,
        Ty::Never => true,
        Ty::TraitObject { args } => all_concrete(args, gens),
        Ty::Tuple { elems } => all_concrete(elems, gens),
        Ty::Reference { elem } => is_concrete_spec(*elem, gens),
        Ty::RawPtr { elem } => is_concrete_spec(*elem, gens),
        Ty::Slice { elem } => is_concrete_spec(*elem, gens),
        Ty::Array { elem } => is_concrete_spec(*elem, gens),
        Ty::Paren { elem } => is_concrete_spec(*elem, gens),
        Ty::Verbatim => true,
    }
}

/// Whether every element of `ts` is concrete with respect to `gens`.
pub open spec fn all_concrete(ts: TyList, gens: Seq<Ident>) -> bool
    decreases ts,
{
    match ts {
        TyList::Nil => true,
        TyList::Cons(t0, rest) => is_concrete_spec(*t0, gens) && all_concrete(*rest, gens),
    }
}

fn name_matches_generic(n: &String, gens: &Vec<Ident>) -> (r: bool)
    ensures
        r == generic_name(n@, gens@),
{
    let mut i: usize = 0;
    while i < gens.len()
        invariant
            i <= gens.len(),
            forall|j: int| 0 <= j < i ==> gens@[j].name@ != n@,
        decreases gens.len() - i,
    {
        if gens[i].name.eq(n) {
            return true;
        }
        i += 1;
    }
    false
}

fn path_is_generic(
    leading_colon: bool,
    names: &NameList,
    args: &TyList,
    gens: &Vec<Ident>,
) -> (r: bool)
    ensures
        r == is_generic_path(leading_colon, *names, *args, gens@),
{
    if leading_colon {
        return false;
    }
    if !(matches!(args, TyList::Nil)) {
        return false;
    }
    match names {
        NameList::Cons(n, rest) => match &**rest {
            NameList::Nil => name_matches_generic(n, gens),
            NameList::Cons(_, _) => false,
        },
        NameList::Nil => false,
    }
}

impl Ty {
    /// Whether this type is concrete with respect to the generic
    /// identifiers `generics`: it contains no bare mention of one of them,
    /// no existential or inferred type, and no macro-invocation type, where
    /// the content of a function-pointer type and of the never type does
    /// not count as contained.
    pub fn is_concrete(&self, generics: &Vec<Ident>) -> (r: bool)
        ensures
            r == is_concrete_spec(*self, generics@),
        decreases *self,
    {
        match self {
            Ty::Path { leading_colon, names, args } => {
                if path_is_generic(*leading_colon, names, args, generics) {
                    false
                } else {
                    all_concrete_exec(args, generics)
                }
            },
            Ty::Mac { .. } => false,
            Ty::ImplTrait { .. } => false,
            Ty::Infer => false,
            Ty::BareFn { .. } => true,
            Ty::Never => true,
            Ty::TraitObject { args } => all_concrete_exec(args, generics),
            Ty::Tuple { elems } => all_concrete_exec(elems, generics),
            Ty::Reference { elem } => elem.is_concrete(generics),
            Ty::RawPtr { elem } => elem.is_concrete(generics),
            Ty::Slice { elem } => elem.is_concrete(generics),
            Ty::Array { elem } => elem.is_concrete(generics),
            Ty::Paren { elem } => elem.is_concrete(generics),
            Ty::Verbatim => true,
        }
    }
}

fn all_concrete_exec(ts: &TyList, gens: &Vec<Ident>) -> (r: bool)
    ensures
        r == all_concrete(*ts, gens@),
    decreases *ts,
{
    match ts {
        TyList::Nil => true,
        TyList::Cons(t0, rest) => t0.is_concrete(gens) && all_concrete_exec(rest, gens),
    }
}

/// Whether the tree of `t` contains, anywhere the concreteness walk looks,
/// a bare path naming one of the identifiers in `gens`. The walk does not
/// look below a function-pointer type.
pub open spec fn mentions_generic(t: Ty, gens: Seq<Ident>) -> bool
    decreases t,
{
    match t {
        Ty::Path { leading_colon, names, args } => is_generic_path(leading_colon, names, args, gens)
            || list_mentions_generic(args, gens),
        Ty::Mac { .. } => false,
        Ty::ImplTrait { args } => list_mentions_generic(args, gens),
        Ty::Infer => false,
        Ty::BareFn { .. } => false,
        Ty::Never => false,
        Ty::TraitObject { args } => list_mentions_generic(args, gens),
        Ty::Tuple { elems } => list_mentions_generic(elems, gens),
        Ty::Reference { elem } => mentions_generic(*elem, gens),
        Ty::RawPtr { elem } => mentions_generic(*elem, gens),
        Ty::Slice { elem } => mentions_generic(*elem, gens),
        Ty::Array { elem } => mentions_generic(*elem, gens),
        Ty::Paren { elem } => mentions_generic(*elem, gens),
        Ty::Verbatim => false,
    }
}

/// Whether some element of `ts` mentions one of the identifiers in `gens`.
pub open spec fn list_mentions_generic(ts: TyList, gens: Seq<Ident>) -> bool
    decreases ts,
{
    match ts {
        TyList::Nil => false,
        TyList::Cons(t0, rest) => mentions_generic(*t0, gens) || list_mentions_generic(
            *rest,
            gens,
        ),
    }
}

/// A type containing a bare path that names one of the supplied generic
/// identifiers, at any depth the concreteness walk reaches, is not
/// concrete. Content of a function-pointer type is exempt: a
/// function-pointer type is concrete whatever its parameters mention.
pub proof fn lemma_generic_not_concrete(t: Ty, gens: Seq<Ident>)
    requires
        mentions_generic(t, gens),
    ensures
        !is_concrete_spec(t, gens),
    decreases t,
{
    match t {
        Ty::Path { leading_colon, names, args } => {
            if !is_generic_path(leading_colon, names, args, gens) {
                lemma_list_generic_not_concrete(args, gens);
            }
        },
        Ty::ImplTrait { args } => {},
        Ty::TraitObject { args } => lemma_list_generic_not_concrete(args, gens),
        Ty::Tuple { elems } => lemma_list_generic_not_concrete(elems, gens),
        Ty::Reference { elem } => lemma_generic_not_concrete(*elem, gens),
        Ty::RawPtr { elem } => lemma_generic_not_concrete(*elem, gens),
        Ty::Slice { elem } => lemma_generic_not_concrete(*elem, gens),
        Ty::Array { elem } => lemma_generic_not_concrete(*elem, gens),
        Ty::Paren { elem } => lemma_generic_not_concrete(*elem, gens),
        _ => {},
    }
}

proof fn lemma_list_generic_not_concrete(ts: TyList, gens: Seq<Ident>)
    requires
        list_mentions_generic(ts, gens),
    ensures
        !all_concrete(ts, gens),
    decreases ts,
{
    match ts {
        TyList::Nil => {},
        TyList::Cons(t0, rest) => {
            if mentions_generic(*t0, gens) {
                lemma_generic_not_concrete(*t0, gens);
            } else {
                lemma_list_generic_not_concrete(*rest, gens);
            }
        },
    }
}

/// A function-pointer type and the never type are concrete, independent of
/// their internal structure and of the generic identifiers supplied.
pub proof fn lemma_bare_fn_never_concrete(args: TyList, gens: Seq<Ident>)
    ensures
        is_concrete_spec(Ty::BareFn { args }, gens),
        is_concrete_spec(Ty::Never, gens),
{
}

} // verus!
