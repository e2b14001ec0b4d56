pub mod concrete;
pub mod fn_arg;
pub mod ident;
pub mod tokens;
pub mod ty;
pub mod unfold;
