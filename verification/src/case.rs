//! Case conversions of declaration names.

use heck::{AsShoutySnakeCase, AsSnakeCase, AsUpperCamelCase};
use vstd::prelude::*;

verus! {

/// `name` in upper camel case, as `heck::AsUpperCamelCase` writes it.
pub uninterp spec fn upper_camel_case(name: Seq<char>) -> Seq<char>;

/// `name` in snake case, as `heck::AsSnakeCase` writes it.
pub uninterp spec fn snake_case(name: Seq<char>) -> Seq<char>;

/// `name` in shouty snake case, as `heck::AsShoutySnakeCase` writes it.
pub uninterp spec fn shouty_snake_case(name: Seq<char>) -> Seq<char>;

/// `heck::AsUpperCamelCase`, written out: the result depends on the
/// characters of `name` alone.
#[verifier::external_body]
pub(crate) fn to_upper_camel_case(name: &str) -> (converted: String)
    ensures
        converted@ == upper_camel_case(name@),
{
    AsUpperCamelCase(name).to_string()
}

/// `heck::AsSnakeCase`, written out: the result depends on the characters of
/// `name` alone.
#[verifier::external_body]
pub(crate) fn to_snake_case(name: &str) -> (converted: String)
    ensures
        converted@ == snake_case(name@),
{
    AsSnakeCase(name).to_string()
}

/// `heck::AsShoutySnakeCase`, written out: the result depends on the
/// characters of `name` alone.
#[verifier::external_body]
pub(crate) fn to_shouty_snake_case(name: &str) -> (converted: String)
    ensures
        converted@ == shouty_snake_case(name@),
{
    AsShoutySnakeCase(name).to_string()
}

} // verus!
