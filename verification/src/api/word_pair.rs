//! Request and response objects for word pairs.

use vstd::prelude::*;
use vstd::std_specs::convert::FromSpecImpl;
use crate::api::validation::{InvalidField, checked, length_within, validate_length};
use crate::domain::word_pair::WordPair;
use crate::types::ID;

verus! {

/// Fewest characters of the source text of a word pair.
pub const SOURCE_TEXT_MIN: u64 = 1;

/// Most characters of the source text of a word pair.
pub const SOURCE_TEXT_MAX: u64 = 100;

/// Fewest characters of a language code.
pub const LANGUAGE_MIN: u64 = 1;

/// Most characters of a language code.
pub const LANGUAGE_MAX: u64 = 5;

/// A word pair as the transport layer shows it: without the stamp.
#[derive(Debug)]
pub struct WordPairDTO {
    pub id: ID,
    pub user_id: ID,
    pub target_text: String,
    pub source_text: String,
    pub target_language: String,
    pub source_language: String,
}

impl Clone for WordPairDTO {
    fn clone(&self) -> (copy: Self)
        ensures
            copy == *self,
    {
        WordPairDTO {
            id: self.id,
            user_id: self.user_id,
            target_text: self.target_text.clone(),
            source_text: self.source_text.clone(),
            target_language: self.target_language.clone(),
            source_language: self.source_language.clone(),
        }
    }
}

impl WordPairDTO {
    /// What the transport layer shows of a word pair: every field but the
    /// stamp.
    pub open spec fn of_word_pair(value: WordPair) -> WordPairDTO {
        WordPairDTO {
            id: value.id,
            user_id: value.user_id,
            target_text: value.target_text,
            source_text: value.source_text,
            target_language: value.target_language,
            source_language: value.source_language,
        }
    }
}

impl From<WordPair> for WordPairDTO {
    fn from(value: WordPair) -> (shown: Self)
        ensures
            shown == WordPairDTO::of_word_pair(value),
    {
        Self {
            id: value.id,
            user_id: value.user_id,
            target_text: value.target_text,
            source_text: value.source_text,
            target_language: value.target_language,
            source_language: value.source_language,
        }
    }
}

impl FromSpecImpl<WordPair> for WordPairDTO {
    open spec fn obeys_from_spec() -> bool {
        true
    }

    open spec fn from_spec(value: WordPair) -> WordPairDTO {
        WordPairDTO::of_word_pair(value)
    }
}

/// The word pairs of a listing as the transport layer shows them, in the
/// order of the listing.
pub fn word_pairs_shown(pairs: Vec<WordPair>) -> (shown: Vec<WordPairDTO>)
    ensures
        shown@.len() == pairs@.len(),
        forall|i: int|
            0 <= i < pairs@.len() ==> #[trigger] shown@[i] == WordPairDTO::of_word_pair(pairs@[i]),
{
    let mut shown: Vec<WordPairDTO> = Vec::new();
    let mut index: usize = 0;
    while index < pairs.len()
        invariant
            index <= pairs@.len(),
            shown@.len() == index,
            forall|i: int|
                0 <= i < index ==> #[trigger] shown@[i] == WordPairDTO::of_word_pair(pairs@[i]),
        decreases pairs@.len() - index,
    {
        shown.push(WordPairDTO::from(pairs[index].clone()));
        index = index + 1;
    }
    shown
}

/// The request to create a word pair.
#[derive(Debug)]
pub struct CreateWordPairDTO {
    pub target_text: String,
    pub source_text: String,
    pub target_language: String,
    pub source_language: String,
}

impl Clone for CreateWordPairDTO {
    fn clone(&self) -> (copy: Self)
        ensures
            copy == *self,
    {
        CreateWordPairDTO {
            target_text: self.target_text.clone(),
            source_text: self.source_text.clone(),
            target_language: self.target_language.clone(),
            source_language: self.source_language.clone(),
        }
    }
}

impl CreateWordPairDTO {
    /// The source text has 1 to 100 characters.
    pub open spec fn source_text_in_bounds(&self) -> bool {
        length_within(self.source_text@.len(), SOURCE_TEXT_MIN, SOURCE_TEXT_MAX)
    }

    /// The target language code has 1 to 5 characters.
    pub open spec fn target_language_in_bounds(&self) -> bool {
        length_within(self.target_language@.len(), LANGUAGE_MIN, LANGUAGE_MAX)
    }

    /// The source language code has 1 to 5 characters.
    pub open spec fn source_language_in_bounds(&self) -> bool {
        length_within(self.source_language@.len(), LANGUAGE_MIN, LANGUAGE_MAX)
    }

    /// The source text and both language codes are in bounds. The target
    /// text has no bound.
    pub open spec fn is_valid(&self) -> bool {
        self.source_text_in_bounds() && self.target_language_in_bounds()
            && self.source_language_in_bounds()
    }

    /// The first field that is out of bounds, in the order source text,
    /// target language, source language.
    pub open spec fn first_invalid(&self) -> Option<InvalidField> {
        if !self.source_text_in_bounds() {
            Some(InvalidField::SourceText)
        } else if !self.target_language_in_bounds() {
            Some(InvalidField::TargetLanguage)
        } else if !self.source_language_in_bounds() {
            Some(InvalidField::SourceLanguage)
        } else {
            None
        }
    }

    /// Checks the bounds of the request and names the first field that is
    /// out of bounds.
    pub fn validate(&self) -> (outcome: Result<(), InvalidField>)
        ensures
            outcome == checked(self.first_invalid()),
            outcome is Ok <==> self.is_valid(),
    {
        if !validate_length(self.source_text.as_str(), SOURCE_TEXT_MIN, SOURCE_TEXT_MAX) {
            Err(InvalidField::SourceText)
        } else if !validate_length(self.target_language.as_str(), LANGUAGE_MIN, LANGUAGE_MAX) {
            Err(InvalidField::TargetLanguage)
        } else if !validate_length(self.source_language.as_str(), LANGUAGE_MIN, LANGUAGE_MAX) {
            Err(InvalidField::SourceLanguage)
        } else {
            Ok(())
        }
    }
}

} // verus!
