use vstd::prelude::*;
use crate::ty::{last_name, list_size, list_seq, ty_size, NameList, Ty, TyList};

verus! {

/// One entry of an unfolding: a type node paired with its nearest enclosing
/// type node, or `None` for the root of the traversal.
#[derive(Debug, PartialEq, Eq)]
pub struct Child {
    pub parent: Option<Ty>,
    pub ty: Ty,
}

impl Clone for Child {
    fn clone(&self) -> (res: Self)
        ensures
            res == *self,
    {
        Child {
            parent: (match &self.parent {
                Some(p) => Some(p.clone()),
                None => None,
            }),
            ty: self.ty.clone(),
        }
    }
}

/// Whether some name of the list `known` has exactly the characters `n`.
pub open spec fn name_in(n: Seq<char>, known: Seq<String>) -> bool {
    exists|i: int| 0 <= i < known.len() && known[i]@ == n
}

/// Whether the last name of `ns` is one of the names in `known`.
pub open spec fn last_is_known(ns: NameList, known: Seq<String>) -> bool {
    match last_name(ns) {
        Some(n) => name_in(n, known),
        None => false,
    }
}

/// The type a macro-invocation node expands to, when its macro name is in
/// `known` and its content parsed as a type; `None` otherwise.
pub open spec fn known_expansion(t: Ty, known: Seq<String>) -> Option<Ty> {
    match t {
        Ty::Mac { names, expansion } => match expansion {
            Some(m) => if last_is_known(names, known) {
                Some(*m)
            } else {
                None
            },
            None => None,
        },
        _ => None,
    }
}

/// The node an unfolding places where `t` stands: `t` itself, unless `t` is
/// a macro invocation that expands, in which case expansion is followed
/// through nested macro invocations.
pub open spec fn resolve(t: Ty, known: Seq<String>) -> Ty
    decreases t,
{
    match t {
        Ty::Mac { names, expansion } => match expansion {
            Some(m) => if last_is_known(names, known) {
                resolve(*m, known)
            } else {
                t
            },
            None => t,
        },
        _ => t,
    }
}

/// The depth-first unfolding of `t` below the enclosing node `parent`: one
/// entry per syntactic type node in visitation order, each paired with its
/// nearest enclosing type node. A macro-invocation node whose name is in
/// `known` and whose content parsed as a type is replaced by the unfolding
/// of that expansion, attributed to the macro node's own parent.
pub open spec fn unfold_spec(t: Ty, parent: Option<Ty>, known: Seq<String>) -> Seq<Child>
    decreases t,
{
    match t {
        Ty::Mac { names, expansion } => match expansion {
            Some(m) => if last_is_known(names, known) {
                unfold_spec(*m, parent, known)
            } else {
                seq![Child { parent, ty: t }]
            },
            None => seq![Child { parent, ty: t }],
        },
        Ty::Path { args, .. } => seq![Child { parent, ty: t }] + unfold_list(args, t, known),
        Ty::ImplTrait { args } => seq![Child { parent, ty: t }] + unfold_list(args, t, known),
        Ty::TraitObject { args } => seq![Child { parent, ty: t }] + unfold_list(args, t, known),
        Ty::BareFn { args } => seq![Child { parent, ty: t }] + unfold_list(args, t, known),
        Ty::Tuple { elems } => seq![Child { parent, ty: t }] + unfold_list(elems, t, known),
        Ty::Reference { elem } => seq![Child { parent, ty: t }]
            + unfold_spec(*elem, Some(t), known),
        Ty::RawPtr { elem } => seq![Child { parent, ty: t }] + unfold_spec(*elem, Some(t), known),
        Ty::Slice { elem } => seq![Child { parent, ty: t }] + unfold_spec(*elem, Some(t), known),
        Ty::Array { elem } => seq![Child { parent, ty: t }] + unfold_spec(*elem, Some(t), known),
        Ty::Paren { elem } => seq![Child { parent, ty: t }] + unfold_spec(*elem, Some(t), known),
        Ty::Infer => seq![Child { parent, ty: t }],
        Ty::Never => seq![Child { parent, ty: t }],
        Ty::Verbatim => seq![Child { parent, ty: t }],
    }
}

/// The concatenated unfoldings of the elements of `ts`, each below the
/// enclosing node `parent`.
pub open spec fn unfold_list(ts: TyList, parent: Ty, known: Seq<String>) -> Seq<Child>
    decreases ts,
{
    match ts {
        TyList::Nil => Seq::empty(),
        TyList::Cons(t0, rest) => unfold_spec(*t0, Some(parent), known)
            + unfold_list(*rest, parent, known),
    }
}

/// The value of an optional borrowed parent node.
pub open spec fn parent_val(p: Option<&Ty>) -> Option<Ty> {
    match p {
        None => None,
        Some(t) => Some(*t),
    }
}

fn clone_parent(p: Option<&Ty>) -> (r: Option<Ty>)
    ensures
        r == parent_val(p),
{
    match p {
        None => None,
        Some(t) => Some(t.clone()),
    }
}

fn last_name_exec(ns: &NameList) -> (r: Option<&String>)
    ensures
        match r {
            None => last_name(*ns) is None,
            Some(s) => last_name(*ns) == Some(s@),
        },
    decreases *ns,
{
    match ns {
        NameList::Nil => None,
        NameList::Cons(n, rest) => match &**rest {
            NameList::Nil => Some(n),
            NameList::Cons(_, _) => last_name_exec(rest),
        },
    }
}

fn contains_name(n: &String, known: &Vec<String>) -> (r: bool)
    ensures
        r == name_in(n@, known@),
{
    let mut i: usize = 0;
    while i < known.len()
        invariant
            i <= known.len(),
            forall|j: int| 0 <= j < i ==> known@[j]@ != n@,
        decreases known.len() - i,
    {
        if known[i].eq(n) {
            return true;
        }
        i += 1;
    }
    false
}

fn last_is_known_exec(ns: &NameList, known: &Vec<String>) -> (r: bool)
    ensures
        r == last_is_known(*ns, known@),
{
    match last_name_exec(ns) {
        None => false,
        Some(n) => contains_name(n, known),
    }
}

/// The expansion a macro-invocation node is replaced by during unfolding,
/// when its macro name is in `known` and its content parsed as a type.
pub fn known_macro_inner_ty<'a>(t: &'a Ty, known: &Vec<String>) -> (r: Option<&'a Ty>)
    ensures
        match r {
            None => known_expansion(*t, known@) is None,
            Some(m) => known_expansion(*t, known@) == Some(*m),
        },
{
    match t {
        Ty::Mac { names, expansion } => match expansion {
            Some(m) => if last_is_known_exec(names, known) {
                Some(&**m)
            } else {
                None
            },
            None => None,
        },
        _ => None,
    }
}

fn unfold_into(t: &Ty, parent: Option<&Ty>, known: &Vec<String>, out: &mut Vec<Child>)
    ensures
        final(out)@ == old(out)@ + unfold_spec(*t, parent_val(parent), known@),
    decreases *t,
{
    let ghost pre = out@;
    if let Ty::Mac { names, expansion } = t {
        if let Some(m) = expansion {
            if last_is_known_exec(names, known) {
                unfold_into(&**m, parent, known, out);
                return;
            }
        }
    }
    out.push(Child { parent: clone_parent(parent), ty: t.clone() });
    match t {
        Ty::Path { args, .. } => unfold_list_into(args, t, known, out),
        Ty::ImplTrait { args } => unfold_list_into(args, t, known, out),
        Ty::TraitObject { args } => unfold_list_into(args, t, known, out),
        Ty::BareFn { args } => unfold_list_into(args, t, known, out),
        Ty::Tuple { elems } => unfold_list_into(elems, t, known, out),
        Ty::Reference { elem } => unfold_into(&**elem, Some(t), known, out),
        Ty::RawPtr { elem } => unfold_into(&**elem, Some(t), known, out),
        Ty::Slice { elem } => unfold_into(&**elem, Some(t), known, out),
        Ty::Array { elem } => unfold_into(&**elem, Some(t), known, out),
        Ty::Paren { elem } => unfold_into(&**elem, Some(t), known, out),
        Ty::Mac { .. } => (),
        Ty::Infer => (),
        Ty::Never => (),
        Ty::Verbatim => (),
    }
    proof {
        assert(out@ =~= pre + unfold_spec(*t, parent_val(parent), known@));
    }
}

fn unfold_list_into(ts: &TyList, parent: &Ty, known: &Vec<String>, out: &mut Vec<Child>)
    ensures
        final(out)@ == old(out)@ + unfold_list(*ts, *parent, known@),
    decreases *ts,
{
    let ghost pre = out@;
    match ts {
        TyList::Nil => {
            proof {
                assert(out@ =~= pre + unfold_list(*ts, *parent, known@));
            }
        },
        TyList::Cons(t0, rest) => {
            unfold_into(&**t0, Some(parent), known, out);
            unfold_list_into(&**rest, parent, known, out);
            proof {
                assert(out@ =~= pre + unfold_list(*ts, *parent, known@));
            }
        },
    }
}

impl Ty {
    /// The depth-first unfolding of this type: one entry per syntactic type
    /// node, in visitation order, each paired with its nearest enclosing
    /// type node (`None` for the root). No macro invocation is expanded.
    pub fn unfold(&self) -> (r: Vec<Child>)
        ensures
            r@ == unfold_spec(*self, None, Seq::<String>::empty()),
    {
        let known: Vec<String> = Vec::new();
        self.unfold_with_known_macros(&known)
    }

    /// The depth-first unfolding of this type, with every macro-invocation
    /// node whose macro name is in `known_macros`, and whose content parsed
    /// as a type, replaced by the unfolding of that expansion, attributed
    /// to the macro node's own parent.
    pub fn unfold_with_known_macros(&self, known_macros: &Vec<String>) -> (r: Vec<Child>)
        ensures
            r@ == unfold_spec(*self, None, known_macros@),
    {
        let mut out: Vec<Child> = Vec::new();
        unfold_into(self, None, known_macros, &mut out);
        proof {
            assert(out@ =~= unfold_spec(*self, None, known_macros@));
        }
        out
    }
}

/// How the node count of a resolved node relates to its origin's: following
/// macro expansions never grows a node.
pub proof fn lemma_resolve_size(t: Ty, known: Seq<String>)
    ensures
        ty_size(resolve(t, known)) <= ty_size(t),
    decreases t,
{
    match t {
        Ty::Mac { names, expansion } => match expansion {
            Some(m) => if last_is_known(names, known) {
                lemma_resolve_size(*m, known);
            },
            None => {},
        },
        _ => {},
    }
}

proof fn lemma_unfold_first(t: Ty, parent: Option<Ty>, known: Seq<String>)
    ensures
        unfold_spec(t, parent, known).len() >= 1,
        unfold_spec(t, parent, known)[0] == (Child { parent, ty: resolve(t, known) }),
    decreases t,
{
    match t {
        Ty::Mac { names, expansion } => match expansion {
            Some(m) => if last_is_known(names, known) {
                lemma_unfold_first(*m, parent, known);
            },
            None => {},
        },
        _ => {},
    }
}

proof fn lemma_unfold_all_some(t: Ty, parent: Option<Ty>, known: Seq<String>)
    requires
        parent is Some,
    ensures
        forall|i: int|
            0 <= i < unfold_spec(t, parent, known).len() ==> (#[trigger] unfold_spec(
                t,
                parent,
                known,
            )[i]).parent is Some,
    decreases t,
{
    match t {
        Ty::Mac { names, expansion } => match expansion {
            Some(m) => if last_is_known(names, known) {
                lemma_unfold_all_some(*m, parent, known);
            },
            None => {},
        },
        Ty::Path { args, .. } => lemma_list_all_some(args, t, known),
        Ty::ImplTrait { args } => lemma_list_all_some(args, t, known),
        Ty::TraitObject { args } => lemma_list_all_some(args, t, known),
        Ty::BareFn { args } => lemma_list_all_some(args, t, known),
        Ty::Tuple { elems } => lemma_list_all_some(elems, t, known),
        Ty::Reference { elem } => lemma_unfold_all_some(*elem, Some(t), known),
        Ty::RawPtr { elem } => lemma_unfold_all_some(*elem, Some(t), known),
        Ty::Slice { elem } => lemma_unfold_all_some(*elem, Some(t), known),
        Ty::Array { elem } => lemma_unfold_all_some(*elem, Some(t), known),
        Ty::Paren { elem } => lemma_unfold_all_some(*elem, Some(t), known),
        Ty::Infer => {},
        Ty::Never => {},
        Ty::Verbatim => {},
    }
}

proof fn lemma_list_all_some(ts: TyList, parent: Ty, known: Seq<String>)
    ensures
        forall|i: int|
            0 <= i < unfold_list(ts, parent, known).len() ==> (#[trigger] unfold_list(
                ts,
                parent,
                known,
            )[i]).parent is Some,
    decreases ts,
{
    match ts {
        TyList::Nil => {},
        TyList::Cons(t0, rest) => {
            lemma_unfold_all_some(*t0, Some(parent), known);
            lemma_list_all_some(*rest, parent, known);
        },
    }
}

proof fn lemma_unfold_sizes(t: Ty, parent: Option<Ty>, known: Seq<String>)
    ensures
        forall|i: int|
            1 <= i < unfold_spec(t, parent, known).len() ==> ty_size(
                (#[trigger] unfold_spec(t, parent, known)[i]).ty,
            ) < ty_size(resolve(t, known)),
    decreases t, 0nat,
{
    match t {
        Ty::Mac { names, expansion } => match expansion {
            Some(m) => if last_is_known(names, known) {
                lemma_unfold_sizes(*m, parent, known);
            },
            None => {},
        },
        Ty::Path { args, .. } => lemma_list_sizes(args, t, known),
        Ty::ImplTrait { args } => lemma_list_sizes(args, t, known),
        Ty::TraitObject { args } => lemma_list_sizes(args, t, known),
        Ty::BareFn { args } => lemma_list_sizes(args, t, known),
        Ty::Tuple { elems } => lemma_list_sizes(elems, t, known),
        Ty::Reference { elem } => lemma_sub_sizes(*elem, t, known),
        Ty::RawPtr { elem } => lemma_sub_sizes(*elem, t, known),
        Ty::Slice { elem } => lemma_sub_sizes(*elem, t, known),
        Ty::Array { elem } => lemma_sub_sizes(*elem, t, known),
        Ty::Paren { elem } => lemma_sub_sizes(*elem, t, known),
        Ty::Infer => {},
        Ty::Never => {},
        Ty::Verbatim => {},
    }
}

proof fn lemma_sub_sizes(elem: Ty, parent: Ty, known: Seq<String>)
    requires
        ty_size(elem) < ty_size(parent),
    ensures
        forall|i: int|
            0 <= i < unfold_spec(elem, Some(parent), known).len() ==> ty_size(
                (#[trigger] unfold_spec(elem, Some(parent), known)[i]).ty,
            ) < ty_size(parent),
    decreases elem, 1nat,
{
    let out = unfold_spec(elem, Some(parent), known);
    lemma_unfold_first(elem, Some(parent), known);
    lemma_resolve_size(elem, known);
    lemma_unfold_sizes(elem, Some(parent), known);
    assert forall|i: int| 0 <= i < out.len() implies ty_size((#[trigger] out[i]).ty) < ty_size(
        parent,
    ) by {
        if i == 0 {
            assert(out[0].ty == resolve(elem, known));
        }
    };
}

proof fn lemma_list_sizes(ts: TyList, parent: Ty, known: Seq<String>)
    requires
        ty_size(parent) > list_size(ts),
    ensures
        forall|i: int|
            0 <= i < unfold_list(ts, parent, known).len() ==> ty_size(
                (#[trigger] unfold_list(ts, parent, known)[i]).ty,
            ) < ty_size(parent),
    decreases ts, 0nat,
{
    match ts {
        TyList::Nil => {},
        TyList::Cons(t0, rest) => {
            lemma_sub_sizes(*t0, parent, known);
            lemma_list_sizes(*rest, parent, known);
        },
    }
}

/// An unfolding is never empty, its first entry has no parent and holds the
/// expansion-resolved root, and it alone does either: an entry's parent is
/// absent exactly when the entry is the first, and an entry holds the
/// resolved root exactly when it is the first.
pub proof fn lemma_unfold_root(t: Ty, known: Seq<String>)
    ensures
        unfold_spec(t, None, known).len() >= 1,
        unfold_spec(t, None, known)[0] == (Child { parent: None, ty: resolve(t, known) }),
        forall|i: int|
            0 <= i < unfold_spec(t, None, known).len() ==> (((#[trigger] unfold_spec(
                t,
                None,
                known,
            )[i]).parent is None) <==> i == 0),
        forall|i: int|
            0 <= i < unfold_spec(t, None, known).len() ==> (((#[trigger] unfold_spec(
                t,
                None,
                known,
            )[i]).ty == resolve(t, known)) <==> i == 0),
    decreases t,
{
    lemma_unfold_first(t, None, known);
    lemma_unfold_sizes(t, None, known);
    match t {
        Ty::Mac { names, expansion } => match expansion {
            Some(m) => if last_is_known(names, known) {
                lemma_unfold_root(*m, known);
            },
            None => {},
        },
        Ty::Path { args, .. } => lemma_list_all_some(args, t, known),
        Ty::ImplTrait { args } => lemma_list_all_some(args, t, known),
        Ty::TraitObject { args } => lemma_list_all_some(args, t, known),
        Ty::BareFn { args } => lemma_list_all_some(args, t, known),
        Ty::Tuple { elems } => lemma_list_all_some(elems, t, known),
        Ty::Reference { elem } => lemma_unfold_all_some(*elem, Some(t), known),
        Ty::RawPtr { elem } => lemma_unfold_all_some(*elem, Some(t), known),
        Ty::Slice { elem } => lemma_unfold_all_some(*elem, Some(t), known),
        Ty::Array { elem } => lemma_unfold_all_some(*elem, Some(t), known),
        Ty::Paren { elem } => lemma_unfold_all_some(*elem, Some(t), known),
        Ty::Infer => {},
        Ty::Never => {},
        Ty::Verbatim => {},
    }
}

/// No entry of an unfolding holds a macro-invocation node that would have
/// expanded: one whose macro name is in the known list and whose content
/// parsed as a type. Such nodes are always replaced by their expansion.
pub proof fn lemma_unfold_no_known_macro(t: Ty, parent: Option<Ty>, known: Seq<String>)
    ensures
        forall|i: int|
            0 <= i < unfold_spec(t, parent, known).len() ==> known_expansion(
                (#[trigger] unfold_spec(t, parent, known)[i]).ty,
                known,
            ) is None,
    decreases t,
{
    match t {
        Ty::Mac { names, expansion } => match expansion {
            Some(m) => if last_is_known(names, known) {
                lemma_unfold_no_known_macro(*m, parent, known);
            },
            None => {},
        },
        Ty::Path { args, .. } => lemma_list_no_known_macro(args, t, known),
        Ty::ImplTrait { args } => lemma_list_no_known_macro(args, t, known),
        Ty::TraitObject { args } => lemma_list_no_known_macro(args, t, known),
        Ty::BareFn { args } => lemma_list_no_known_macro(args, t, known),
        Ty::Tuple { elems } => lemma_list_no_known_macro(elems, t, known),
        Ty::Reference { elem } => lemma_unfold_no_known_macro(*elem, Some(t), known),
        Ty::RawPtr { elem } => lemma_unfold_no_known_macro(*elem, Some(t), known),
        Ty::Slice { elem } => lemma_unfold_no_known_macro(*elem, Some(t), known),
        Ty::Array { elem } => lemma_unfold_no_known_macro(*elem, Some(t), known),
        Ty::Paren { elem } => lemma_unfold_no_known_macro(*elem, Some(t), known),
        Ty::Infer => {},
        Ty::Never => {},
        Ty::Verbatim => {},
    }
}

proof fn lemma_list_no_known_macro(ts: TyList, parent: Ty, known: Seq<String>)
    ensures
        forall|i: int|
            0 <= i < unfold_list(ts, parent, known).len() ==> known_expansion(
                (#[trigger] unfold_list(ts, parent, known)[i]).ty,
                known,
            ) is None,
    decreases ts,
{
    match ts {
        TyList::Nil => {},
        TyList::Cons(t0, rest) => {
            lemma_unfold_no_known_macro(*t0, Some(parent), known);
            lemma_list_no_known_macro(*rest, parent, known);
        },
    }
}

/// Unfolding is deterministic: the same tree with the same known-macro list
/// always yields the same sequence, in order and content. Re-running an
/// unfolding can never change its result.
pub proof fn lemma_unfold_deterministic(t: Ty, known: Seq<String>, r1: Seq<Child>, r2: Seq<Child>)
    requires
        r1 == unfold_spec(t, None, known),
        r2 == unfold_spec(t, None, known),
    ensures
        r1 == r2,
{
}

} // verus!
