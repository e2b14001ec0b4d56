use proc_macro2::Span;
use syn_ext::fn_arg::{FnArg, Pat, ReturnType};
use syn_ext::ident::{Ident, ROCKET_IDENT_PREFIX};
use syn_ext::tokens::respanned;
use syn_ext::ty::{NameList, Ty, TyList};

fn ident(name: &str) -> Ident {
    Ident::new(String::from(name), Span::call_site())
}

fn leaf(name: &str) -> Ty {
    Ty::Path {
        leading_colon: false,
        names: NameList::from_vec(vec![String::from(name)]),
        args: TyList::from_vec(vec![]),
    }
}

#[test]
fn prepend_concatenates_before_the_name() {
    assert_eq!(ident("handler").prepend("pre_").name, "pre_handler");
}

#[test]
fn prepend_strips_a_raw_identifier_escape() {
    assert_eq!(ident("r#type").prepend("pre_").name, "pre_type");
}

#[test]
fn prepend_keeps_a_short_name_whole() {
    assert_eq!(ident("r").prepend("x").name, "xr");
}

#[test]
fn append_concatenates_after_the_name() {
    assert_eq!(ident("handler").append("_suffix").name, "handler_suffix");
}

#[test]
fn append_keeps_a_raw_identifier_escape() {
    assert_eq!(ident("r#type").append("_x").name, "r#type_x");
}

#[test]
fn rocketized_prefixes_the_framework_marker() {
    assert_eq!(ident("guard").rocketized().name, "__rocket_guard");
    assert_eq!(
        ident("r#async").rocketized().name,
        format!("{}{}", ROCKET_IDENT_PREFIX, "async")
    );
}

#[test]
fn with_span_keeps_the_name() {
    let i = ident("x").with_span(Span::call_site());
    assert_eq!(i.name, "x");
}

#[test]
fn uniqueify_appends_the_digest_in_decimal() {
    assert_eq!(ident("x").uniqueify_with(0).name, "x_0");
    assert_eq!(ident("x").uniqueify_with(1234).name, "x_1234");
    assert_eq!(
        ident("x").uniqueify_with(u64::MAX).name,
        "x_18446744073709551615"
    );
}

#[test]
fn uniqueify_distinct_digests_distinct_names() {
    let a = ident("x").uniqueify_with(7).name;
    let b = ident("x").uniqueify_with(8).name;
    assert_ne!(a, b);
}

#[test]
fn typed_extracts_simple_identifier_bindings_only() {
    let arg = FnArg::Typed { pat: Pat::Ident(ident("count")), ty: Box::new(leaf("usize")) };
    let (i, t) = arg.typed().unwrap();
    assert_eq!(i.name, "count");
    assert_eq!(*t, leaf("usize"));

    let wild = FnArg::Typed { pat: Pat::Wild, ty: Box::new(leaf("usize")) };
    assert!(wild.typed().is_none());
    assert!(FnArg::Receiver.typed().is_none());
    let other = FnArg::Typed { pat: Pat::Other, ty: Box::new(leaf("usize")) };
    assert!(other.typed().is_none());
}

#[test]
fn wild_recognizes_wildcard_bindings_only() {
    let wild = FnArg::Typed { pat: Pat::Wild, ty: Box::new(leaf("usize")) };
    assert!(wild.wild());
    let named = FnArg::Typed { pat: Pat::Ident(ident("x")), ty: Box::new(leaf("usize")) };
    assert!(!named.wild());
    assert!(!FnArg::Receiver.wild());
}

#[test]
fn return_type_yields_the_declared_type_only() {
    assert!(ReturnType::Default.ty().is_none());
    let r = ReturnType::Type(Box::new(leaf("bool")));
    assert_eq!(r.ty().unwrap(), &leaf("bool"));
}

#[test]
fn respanned_keeps_the_token_sequence() {
    let tokens: proc_macro2::TokenStream = "a + (b, c)".parse().unwrap();
    let moved = respanned(&tokens, Span::call_site());
    assert_eq!(tokens.to_string(), moved.to_string());
}
