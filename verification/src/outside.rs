//! The two computations the generator takes from outside crates: the snake
//! case of a resource name (Inflector) and whether a name is a plain Rust
//! identifier (syn).

use vstd::prelude::*;

verus! {

/// The text that Inflector's `to_snake_case` returns for `text`.
pub uninterp spec fn snake_case_of(text: Seq<char>) -> Seq<char>;

/// Whether syn parses `text` as a single `syn::Ident` (an identifier that is
/// not a keyword and not `_`, with nothing after it).
pub uninterp spec fn parses_as_ident(text: Seq<char>) -> bool;

/// Calls `inflector::cases::snakecase::to_snake_case`, the function behind
/// `Inflector::to_snake_case`. Claimed: the result depends on the text alone
/// and is named `snake_case_of`; its value is not stated here.
#[verifier::external_body]
pub(crate) fn to_snake_case(text: &str) -> (r: String)
    ensures
        r@ == snake_case_of(text@),
{
    inflector::cases::snakecase::to_snake_case(text)
}

/// Calls `syn::parse_str::<syn::Ident>` and reports whether it succeeded.
/// Claimed: the answer depends on the text alone and is named
/// `parses_as_ident`; which texts syn accepts is not stated here.
#[verifier::external_body]
pub(crate) fn is_plain_ident(text: &str) -> (r: bool)
    ensures
        r == parses_as_ident(text@),
{
    syn::parse_str::<syn::Ident>(text).is_ok()
}

} // verus!
