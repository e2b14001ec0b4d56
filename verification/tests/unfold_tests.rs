use proc_macro2::Span;
use syn_ext::ident::Ident;
use syn_ext::ty::{NameList, Ty, TyList};
use syn_ext::unfold::{known_macro_inner_ty, Child};

fn path(name: &str, args: Vec<Ty>) -> Ty {
    Ty::Path {
        leading_colon: false,
        names: NameList::from_vec(vec![String::from(name)]),
        args: TyList::from_vec(args),
    }
}

fn mac(name: &str, expansion: Option<Ty>) -> Ty {
    Ty::Mac {
        names: NameList::from_vec(vec![String::from(name)]),
        expansion: expansion.map(Box::new),
    }
}

fn ident(name: &str) -> Ident {
    Ident::new(String::from(name), Span::call_site())
}

#[test]
fn test_type_unfold_is_generic() {
    // A<B, C<impl Foo>, Box<dyn Foo>, Option<T>>
    let ty = path(
        "A",
        vec![
            path("B", vec![]),
            path("C", vec![Ty::ImplTrait { args: TyList::from_vec(vec![]) }]),
            path("Box", vec![Ty::TraitObject { args: TyList::from_vec(vec![]) }]),
            path("Option", vec![path("T", vec![])]),
        ],
    );
    let children = ty.unfold();
    assert_eq!(children.len(), 8);

    let gen_ident = ident("T");
    let gen = vec![gen_ident];
    assert_eq!(children.iter().filter(|c| c.ty.is_concrete(&gen)).count(), 3);
}

#[test]
fn unfold_single_leaf_has_no_parent() {
    let ty = path("u8", vec![]);
    let children = ty.unfold();
    assert_eq!(children.len(), 1);
    assert_eq!(children[0].parent, None);
    assert_eq!(children[0].ty, path("u8", vec![]));
}

#[test]
fn unfold_assigns_nearest_enclosing_parent() {
    let inner = path("u8", vec![]);
    let ty = path("Option", vec![inner.clone()]);
    let children = ty.unfold();
    assert_eq!(children.len(), 2);
    assert_eq!(children[0].parent, None);
    assert_eq!(children[0].ty, ty);
    assert_eq!(children[1].parent, Some(ty.clone()));
    assert_eq!(children[1].ty, inner);
}

#[test]
fn unfold_preorder_over_tuple() {
    let a = path("A", vec![]);
    let b = path("B", vec![path("C", vec![])]);
    let ty = Ty::Tuple { elems: TyList::from_vec(vec![a.clone(), b.clone()]) };
    let children = ty.unfold();
    assert_eq!(children.len(), 4);
    assert_eq!(children[0].ty, ty);
    assert_eq!(children[1].ty, a);
    assert_eq!(children[2].ty, b);
    assert_eq!(children[3].ty, path("C", vec![]));
    assert_eq!(children[3].parent, Some(b));
}

#[test]
fn unfold_expands_known_macro_onto_parent() {
    let expansion = path("u8", vec![]);
    let ty = path("Option", vec![mac("m", Some(expansion.clone()))]);
    let known = vec![String::from("m")];
    let children = ty.unfold_with_known_macros(&known);
    assert_eq!(children.len(), 2);
    assert_eq!(children[1].ty, expansion);
    assert_eq!(children[1].parent, Some(ty.clone()));
}

#[test]
fn unfold_expanded_root_keeps_no_parent() {
    let expansion = path("u8", vec![]);
    let ty = mac("m", Some(expansion.clone()));
    let known = vec![String::from("m")];
    let children = ty.unfold_with_known_macros(&known);
    assert_eq!(children.len(), 1);
    assert_eq!(children[0].parent, None);
    assert_eq!(children[0].ty, expansion);
}

#[test]
fn unfold_keeps_unknown_macro_as_leaf() {
    let ty = mac("m", Some(path("u8", vec![])));
    let children = ty.unfold();
    assert_eq!(children.len(), 1);
    assert_eq!(children[0].ty, ty);
}

#[test]
fn unfold_keeps_unparseable_known_macro_as_leaf() {
    let ty = mac("m", None);
    let known = vec![String::from("m")];
    let children = ty.unfold_with_known_macros(&known);
    assert_eq!(children.len(), 1);
    assert_eq!(children[0].ty, ty);
    assert_eq!(children[0].parent, None);
}

#[test]
fn unfold_expands_nested_known_macros() {
    let innermost = path("u8", vec![]);
    let ty = mac("m", Some(mac("m", Some(innermost.clone()))));
    let known = vec![String::from("m")];
    let children = ty.unfold_with_known_macros(&known);
    assert_eq!(children.len(), 1);
    assert_eq!(children[0].ty, innermost);
}

#[test]
fn unfold_matches_macro_by_last_path_segment() {
    let expansion = path("u8", vec![]);
    let ty = Ty::Mac {
        names: NameList::from_vec(vec![String::from("outer"), String::from("m")]),
        expansion: Some(Box::new(expansion.clone())),
    };
    let known = vec![String::from("m")];
    let children = ty.unfold_with_known_macros(&known);
    assert_eq!(children.len(), 1);
    assert_eq!(children[0].ty, expansion);
}

#[test]
fn unfold_same_input_same_output() {
    let ty = path(
        "A",
        vec![path("B", vec![]), Ty::Tuple {
            elems: TyList::from_vec(vec![path("C", vec![]), mac("m", Some(path("D", vec![])))]),
        }],
    );
    let known = vec![String::from("m")];
    let first: Vec<Child> = ty.unfold_with_known_macros(&known);
    let second: Vec<Child> = ty.unfold_with_known_macros(&known);
    assert_eq!(first, second);
}

#[test]
fn known_macro_inner_ty_follows_the_allow_list() {
    let expansion = path("u8", vec![]);
    let m = mac("m", Some(expansion.clone()));
    let known = vec![String::from("m")];
    let other = vec![String::from("n")];
    assert_eq!(known_macro_inner_ty(&m, &known), Some(&expansion));
    assert_eq!(known_macro_inner_ty(&m, &other), None);
    assert_eq!(known_macro_inner_ty(&mac("m", None), &known), None);
    assert_eq!(known_macro_inner_ty(&path("m", vec![]), &known), None);
}

#[test]
fn is_concrete_rejects_bare_generic_at_any_depth() {
    let gens = vec![ident("T")];
    assert!(!path("T", vec![]).is_concrete(&gens));
    assert!(!path("Option", vec![path("Vec", vec![path("T", vec![])])]).is_concrete(&gens));
    let tuple = Ty::Tuple {
        elems: TyList::from_vec(vec![path("u8", vec![]), Ty::Reference {
            elem: Box::new(path("T", vec![])),
        }]),
    };
    assert!(!tuple.is_concrete(&gens));
}

#[test]
fn is_concrete_accepts_non_generic_paths() {
    let gens = vec![ident("T")];
    assert!(path("u8", vec![]).is_concrete(&gens));
    assert!(path("Vec", vec![path("u8", vec![])]).is_concrete(&gens));
    // A path with arguments is not a bare mention, but its arguments count.
    assert!(path("T", vec![path("u8", vec![])]).is_concrete(&gens));
    // A multi-segment path is not a bare mention of a generic.
    let qualified = Ty::Path {
        leading_colon: false,
        names: NameList::from_vec(vec![String::from("T"), String::from("Assoc")]),
        args: TyList::from_vec(vec![]),
    };
    assert!(qualified.is_concrete(&gens));
    let rooted = Ty::Path {
        leading_colon: true,
        names: NameList::from_vec(vec![String::from("T")]),
        args: TyList::from_vec(vec![]),
    };
    assert!(rooted.is_concrete(&gens));
}

#[test]
fn is_concrete_rejects_placeholders_and_macros() {
    let gens: Vec<Ident> = vec![];
    assert!(!Ty::Infer.is_concrete(&gens));
    assert!(!Ty::ImplTrait { args: TyList::from_vec(vec![]) }.is_concrete(&gens));
    assert!(!mac("m", Some(path("u8", vec![]))).is_concrete(&gens));
    assert!(!mac("m", None).is_concrete(&gens));
}

#[test]
fn is_concrete_accepts_bare_fn_and_never_whatever_they_hold() {
    let gens = vec![ident("T")];
    let f = Ty::BareFn { args: TyList::from_vec(vec![path("T", vec![])]) };
    assert!(f.is_concrete(&gens));
    assert!(Ty::Never.is_concrete(&gens));
}

#[test]
fn unfold_descends_into_bare_fn_but_concreteness_does_not() {
    let gens = vec![ident("T")];
    let f = Ty::BareFn { args: TyList::from_vec(vec![path("T", vec![])]) };
    let children = f.unfold();
    assert_eq!(children.len(), 2);
    assert_eq!(children[1].ty, path("T", vec![]));
    assert!(f.is_concrete(&gens));
    assert!(!children[1].ty.is_concrete(&gens));
}
