//! Normalisation of the texts an entity holds: title case for names and
//! word texts, lower case for language codes.

use vstd::prelude::*;

verus! {

/// The title-case form of a text as `heck` computes it: words split at
/// non-alphanumeric characters and at case changes, joined by single spaces,
/// each with its first character in upper case and the rest in lower case.
pub uninterp spec fn title_case(text: Seq<char>) -> Seq<char>;

/// The lower-case form of a text under the Unicode lower-case mapping, as
/// `str::to_lowercase` computes it.
pub uninterp spec fn lowercase(text: Seq<char>) -> Seq<char>;

/// The characters of an optional string.
pub open spec fn optional_text(text: Option<String>) -> Option<Seq<char>> {
    match text {
        Some(t) => Some(t@),
        None => None,
    }
}

/// Calls `heck::ToTitleCase::to_title_case` on a string slice. The result is
/// a function of the text alone; the contract names it.
#[verifier::external_body]
fn heck_title_case(text: &str) -> (titled: String)
    ensures
        titled@ == title_case(text@),
{
    heck::ToTitleCase::to_title_case(text)
}

/// Calls `str::to_lowercase`. The result is a function of the text alone;
/// the contract names it.
#[verifier::external_body]
fn std_lowercase(text: &str) -> (lowered: String)
    ensures
        lowered@ == lowercase(text@),
{
    text.to_lowercase()
}

/// Normal form of a name or a word text: title case.
pub fn normalize_text(text: &str) -> (normal: String)
    ensures
        normal@ == title_case(text@),
{
    heck_title_case(text)
}

/// Normal form of a language code: lower case.
pub fn normalize_language(code: &str) -> (normal: String)
    ensures
        normal@ == lowercase(code@),
{
    std_lowercase(code)
}

} // verus!
