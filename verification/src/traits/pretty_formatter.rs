//! A result written out: the value as it is shown to users, the error as it is
//! shown to developers.

use vstd::prelude::*;
use vstd::string::to_string_from_display_ensures;
use std::fmt::{Debug, Display};

verus! {

/// `format!` with `{:?}`: the text that the value's `Debug` writes. What that is
/// rests with the type, so nothing is said of it.
#[verifier::external_body]
fn debug_text<E: Debug>(error: &E) -> (text: String) {
    format!("{:?}", error)
}

/// Writes out a result: a value as its `Display` shows it, an error as its `Debug`
/// shows it.
pub fn pretty_format<T, E>(t: &Result<T, E>) -> (text: String) where T: Display, E: Debug
    ensures
        t is Ok ==> to_string_from_display_ensures::<T>(&t->Ok_0, text),
{
    match t {
        Ok(value) => value.to_string(),
        Err(error) => debug_text(error),
    }
}

} // verus!
