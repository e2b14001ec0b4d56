use vstd::prelude::*;

verus! {

/// A list of path-segment names, ordered from first to last segment.
#[derive(Debug, PartialEq, Eq)]
pub enum NameList {
    Nil,
    Cons(String, Box<NameList>),
}

/// A list of type expressions, used wherever a syntactic node carries an
/// ordered sequence of component types.
#[derive(Debug, PartialEq, Eq)]
pub enum TyList {
    Nil,
    Cons(Box<Ty>, Box<TyList>),
}

/// A syntactic type expression, before any name resolution.
///
/// A `Path` keeps its segment names and, flattened in source order, every
/// type expression appearing among its segments' arguments. A `Mac` keeps
/// the macro path's segment names together with the macro content re-parsed
/// as a type, when that parse succeeds (`expansion`); the parse does not
/// depend on any allow-list, so it is carried by the node itself.
#[derive(Debug, PartialEq, Eq)]
pub enum Ty {
    Path { leading_colon: bool, names: NameList, args: TyList },
    Mac { names: NameList, expansion: Option<Box<Ty>> },
    ImplTrait { args: TyList },
    TraitObject { args: TyList },
    BareFn { args: TyList },
    Tuple { elems: TyList },
    Reference { elem: Box<Ty> },
    RawPtr { elem: Box<Ty> },
    Slice { elem: Box<Ty> },
    Array { elem: Box<Ty> },
    Paren { elem: Box<Ty> },
    Infer,
    Never,
    Verbatim,
}

/// The names of a list, as a sequence of character sequences.
pub open spec fn name_seq(ns: NameList) -> Seq<Seq<char>>
    decreases ns,
{
    match ns {
        NameList::Nil => Seq::empty(),
        NameList::Cons(n, rest) => seq![n@] + name_seq(*rest),
    }
}

/// The last name of a list, if the list is non-empty.
pub open spec fn last_name(ns: NameList) -> Option<Seq<char>>
    decreases ns,
{
    match ns {
        NameList::Nil => None,
        NameList::Cons(n, rest) => match *rest {
            NameList::Nil => Some(n@),
            NameList::Cons(_, _) => last_name(*rest),
        },
    }
}

/// The elements of a list, as a sequence.
pub open spec fn list_seq(ts: TyList) -> Seq<Ty>
    decreases ts,
{
    match ts {
        TyList::Nil => Seq::empty(),
        TyList::Cons(t, rest) => seq![*t] + list_seq(*rest),
    }
}

/// The number of syntactic type nodes in a type expression, counting the
/// re-parsed content of a macro invocation when there is one.
pub open spec fn ty_size(t: Ty) -> nat
    decreases t,
{
    match t {
        Ty::Path { args, .. } => 1 + list_size(args),
        Ty::Mac { expansion, .. } => match expansion {
            Some(m) => 1 + ty_size(*m),
            None => 1,
        },
        Ty::ImplTrait { args } => 1 + list_size(args),
        Ty::TraitObject { args } => 1 + list_size(args),
        Ty::BareFn { args } => 1 + list_size(args),
        Ty::Tuple { elems } => 1 + list_size(elems),
        Ty::Reference { elem } => 1 + ty_size(*elem),
        Ty::RawPtr { elem } => 1 + ty_size(*elem),
        Ty::Slice { elem } => 1 + ty_size(*elem),
        Ty::Array { elem } => 1 + ty_size(*elem),
        Ty::Paren { elem } => 1 + ty_size(*elem),
        Ty::Infer => 1,
        Ty::Never => 1,
        Ty::Verbatim => 1,
    }
}

/// The total number of syntactic type nodes in a list of type expressions.
pub open spec fn list_size(ts: TyList) -> nat
    decreases ts,
{
    match ts {
        TyList::Nil => 0,
        TyList::Cons(t, rest) => ty_size(*t) + list_size(*rest),
    }
}

impl Clone for NameList {
    fn clone(&self) -> (res: Self)
        ensures
            res == *self,
        decreases self,
    {
        match self {
            NameList::Nil => NameList::Nil,
            NameList::Cons(n, rest) => NameList::Cons(n.clone(), Box::new((&**rest).clone())),
        }
    }
}

impl Clone for TyList {
    fn clone(&self) -> (res: Self)
        ensures
            res == *self,
        decreases self,
    {
        match self {
            TyList::Nil => TyList::Nil,
            TyList::Cons(t, rest) => TyList::Cons(
                Box::new((&**t).clone()),
                Box::new((&**rest).clone()),
            ),
        }
    }
}

impl Clone for Ty {
    fn clone(&self) -> (res: Self)
        ensures
            res == *self,
        decreases self,
    {
        match self {
            Ty::Path { leading_colon, names, args } => Ty::Path {
                leading_colon: *leading_colon,
                names: names.clone(),
                args: args.clone(),
            },
            Ty::Mac { names, expansion } => Ty::Mac {
                names: names.clone(),
                expansion: (match expansion {
                    Some(b) => Some(Box::new((&**b).clone())),
                    None => None,
                }),
            },
            Ty::ImplTrait { args } => Ty::ImplTrait { args: args.clone() },
            Ty::TraitObject { args } => Ty::TraitObject { args: args.clone() },
            Ty::BareFn { args } => Ty::BareFn { args: args.clone() },
            Ty::Tuple { elems } => Ty::Tuple { elems: elems.clone() },
            Ty::Reference { elem } => Ty::Reference { elem: Box::new((&**elem).clone()) },
            Ty::RawPtr { elem } => Ty::RawPtr { elem: Box::new((&**elem).clone()) },
            Ty::Slice { elem } => Ty::Slice { elem: Box::new((&**elem).clone()) },
            Ty::Array { elem } => Ty::Array { elem: Box::new((&**elem).clone()) },
            Ty::Paren { elem } => Ty::Paren { elem: Box::new((&**elem).clone()) },
            Ty::Infer => Ty::Infer,
            Ty::Never => Ty::Never,
            Ty::Verbatim => Ty::Verbatim,
        }
    }
}

impl NameList {
    /// Builds a name list from a vector of names, keeping their order.
    pub fn from_vec(v: Vec<String>) -> (r: NameList)
        ensures
            name_seq(r) == v@.map_values(|s: String| s@),
    {
        let mut v = v;
        let ghost orig = v@;
        let mut acc = NameList::Nil;
        proof {
            assert(orig.take(orig.len() as int) =~= orig);
            assert(orig.map_values(|s: String| s@).skip(orig.len() as int) =~= Seq::empty());
        }
        while v.len() > 0
            invariant
                v@.len() <= orig.len(),
                v@ == orig.take(v@.len() as int),
                name_seq(acc) == orig.map_values(|s: String| s@).skip(v@.len() as int),
            decreases v@.len(),
        {
            let ghost k = v@.len() as int;
            let n = v.pop().unwrap();
            proof {
                assert(v@ =~= orig.take(k - 1));
                assert(n@ == orig.map_values(|s: String| s@)[k - 1]);
                assert(orig.map_values(|s: String| s@).skip(k - 1) =~= seq![
                    orig.map_values(|s: String| s@)[k - 1],
                ] + orig.map_values(|s: String| s@).skip(k));
            }
            acc = NameList::Cons(n, Box::new(acc));
        }
        proof {
            assert(name_seq(acc) =~= orig.map_values(|s: String| s@));
        }
        acc
    }
}

impl TyList {
    /// Builds a type list from a vector of type expressions, keeping their order.
    pub fn from_vec(v: Vec<Ty>) -> (r: TyList)
        ensures
            list_seq(r) == v@,
    {
        let mut v = v;
        let ghost orig = v@;
        let mut acc = TyList::Nil;
        proof {
            assert(orig.take(orig.len() as int) =~= orig);
            assert(orig.skip(orig.len() as int) =~= Seq::empty());
        }
        while v.len() > 0
            invariant
                v@.len() <= orig.len(),
                v@ == orig.take(v@.len() as int),
                list_seq(acc) == orig.skip(v@.len() as int),
            decreases v@.len(),
        {
            let ghost k = v@.len() as int;
            let t = v.pop().unwrap();
            proof {
                assert(v@ =~= orig.take(k - 1));
                assert(orig.skip(k - 1) =~= seq![orig[k - 1]] + orig.skip(k));
            }
            acc = TyList::Cons(Box::new(t), Box::new(acc));
        }
        proof {
            assert(list_seq(acc) =~= orig);
        }
        acc
    }
}

} // verus!
