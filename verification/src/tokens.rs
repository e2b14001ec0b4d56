use vstd::prelude::*;

verus! {

/// `proc_macro2::Span`: source-location metadata. The library carries spans
/// through its identifier operations and never inspects them.
#[verifier::external_type_specification]
#[verifier::external_body]
pub struct ExSpan(proc_macro2::Span);

/// `proc_macro2::TokenStream`: a token sequence, handled only by `respanned`.
#[verifier::external_type_specification]
#[verifier::external_body]
pub struct ExTokenStream(proc_macro2::TokenStream);

/// Returns a copy of `tokens` in which every top-level token's
/// source-location metadata is replaced by `span`.
///
/// Relies on proc_macro2: `TokenStream` iteration and `FromIterator`
/// collection preserve the token sequence, and `TokenTree::set_span`
/// replaces only a token's source location. Tokens are opaque to contracts
/// here, so nothing is promised of the result.
#[verifier::external_body]
pub fn respanned(
    tokens: &proc_macro2::TokenStream,
    span: proc_macro2::Span,
) -> proc_macro2::TokenStream {
    tokens.clone().into_iter().map(
        |mut token| {
            token.set_span(span);
            token
        },
    ).collect()
}

} // verus!
