//! Length bounds on the texts of a request.

use vstd::prelude::*;
use crate::text::optional_text;

verus! {

/// Whether a text of `length` characters lies within the closed range from
/// `min` to `max`.
pub open spec fn length_within(length: nat, min: u64, max: u64) -> bool {
    min <= length <= max
}

/// Whether an optional text, where it is present, lies within the bounds.
/// An absent text meets every bound.
pub open spec fn optional_length_within(text: Option<Seq<char>>, min: u64, max: u64) -> bool {
    match text {
        Some(t) => length_within(t.len(), min, max),
        None => true,
    }
}

/// Calls `validator::ValidateLength::validate_length` on a string slice
/// with both bounds and no exact length. The library counts the characters
/// of the string and accepts a count that is neither below `min` nor above
/// `max`.
#[verifier::external_body]
pub(crate) fn validate_length(text: &str, min: u64, max: u64) -> (accepted: bool)
    ensures
        accepted == length_within(text@.len(), min, max),
{
    validator::ValidateLength::validate_length(text, Some(min), Some(max), None)
}

/// A field of a request that is out of its bounds.
#[derive(Clone, Copy, Debug, PartialEq, Eq, Structural)]
pub enum InvalidField {
    Key,
    Name,
    SourceText,
    TargetLanguage,
    SourceLanguage,
}

/// What the check of a request comes to, from the first field that is out
/// of its bounds, if there is one.
pub open spec fn checked(first_invalid: Option<InvalidField>) -> Result<(), InvalidField> {
    match first_invalid {
        Some(field) => Err(field),
        None => Ok(()),
    }
}

/// Checks an optional text against its bounds. An absent text passes.
pub fn check_optional_length(text: &Option<String>, min: u64, max: u64) -> (accepted: bool)
    ensures
        accepted == optional_length_within(optional_text(*text), min, max),
{
    match text {
        Some(t) => validate_length(t.as_str(), min, max),
        None => true,
    }
}

} // verus!
