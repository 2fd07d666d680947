//! The word pair: a text in a source language beside its counterpart in a
//! target language, owned by one user.

use vstd::prelude::*;
use crate::clock::now;
use crate::identity::{fresh_id, random_i32};
use crate::text::{lowercase, normalize_language, normalize_text, title_case};
use crate::types::{ID, Timestamp, is_nil, is_random_uuid};

verus! {

/// The fields of a word pair that a caller chooses.
#[derive(Debug)]
pub struct CreateWordPair {
    pub target_text: String,
    pub source_text: String,
    pub target_language: String,
    pub source_language: String,
}

/// A stored word pair. The texts are held in title case and the language
/// codes in lower case. Nothing in it changes after construction.
#[derive(Debug)]
pub struct WordPair {
    pub id: ID,
    pub user_id: ID,
    pub target_text: String,
    pub source_text: String,
    pub target_language: String,
    pub source_language: String,
    pub created_at: Timestamp,
}

/// What a `WordPair` holds, with its texts as sequences of characters.
pub struct WordPairView {
    pub id: ID,
    pub user_id: ID,
    pub target_text: Seq<char>,
    pub source_text: Seq<char>,
    pub target_language: Seq<char>,
    pub source_language: Seq<char>,
    pub created_at: Timestamp,
}

impl View for WordPair {
    type V = WordPairView;

    open spec fn view(&self) -> WordPairView {
        WordPairView {
            id: self.id,
            user_id: self.user_id,
            target_text: self.target_text@,
            source_text: self.source_text@,
            target_language: self.target_language@,
            source_language: self.source_language@,
            created_at: self.created_at,
        }
    }
}

impl Clone for WordPair {
    fn clone(&self) -> (copy: Self)
        ensures
            copy == *self,
    {
        WordPair {
            id: self.id,
            user_id: self.user_id,
            target_text: self.target_text.clone(),
            source_text: self.source_text.clone(),
            target_language: self.target_language.clone(),
            source_language: self.source_language.clone(),
            created_at: self.created_at,
        }
    }
}

impl WordPairView {
    /// The texts and the language codes are in normal form: each text is
    /// the title case of some text, each code the lower case of some code.
    pub open spec fn is_normalised(self) -> bool {
        &&& exists|raw: Seq<char>| self.target_text == #[trigger] title_case(raw)
        &&& exists|raw: Seq<char>| self.source_text == #[trigger] title_case(raw)
        &&& exists|raw: Seq<char>| self.target_language == #[trigger] lowercase(raw)
        &&& exists|raw: Seq<char>| self.source_language == #[trigger] lowercase(raw)
    }

    /// The word pair that construction yields from its parts: the texts in
    /// title case, the language codes in lower case, the rest as given.
    pub open spec fn built(
        id: ID,
        user_id: ID,
        target_text: Seq<char>,
        source_text: Seq<char>,
        target_language: Seq<char>,
        source_language: Seq<char>,
        created_at: Timestamp,
    ) -> WordPairView {
        WordPairView {
            id,
            user_id,
            target_text: title_case(target_text),
            source_text: title_case(source_text),
            target_language: lowercase(target_language),
            source_language: lowercase(source_language),
            created_at,
        }
    }
}

impl WordPair {
    /// A word pair made of the given parts, normalised. Nothing is drawn
    /// from the clock or from the random generator.
    pub fn build(
        id: ID,
        user_id: ID,
        target_text: &str,
        source_text: &str,
        target_language: &str,
        source_language: &str,
        created_at: Timestamp,
    ) -> (pair: Self)
        ensures
            pair@ == WordPairView::built(
                id,
                user_id,
                target_text@,
                source_text@,
                target_language@,
                source_language@,
                created_at,
            ),
            pair@.is_normalised(),
    {
        Self {
            id,
            user_id,
            target_text: normalize_text(target_text),
            source_text: normalize_text(source_text),
            target_language: normalize_language(target_language),
            source_language: normalize_language(source_language),
            created_at,
        }
    }

    /// A new word pair of the user `user_id`, with a fresh identifier and
    /// the creation stamp read from the clock.
    pub fn new(
        user_id: &ID,
        target_text: &str,
        source_text: &str,
        target_language: &str,
        source_language: &str,
    ) -> (pair: Self)
        ensures
            is_random_uuid(pair.id),
            !is_nil(pair.id),
            pair.created_at.is_valid(),
            pair@.is_normalised(),
            pair@ == WordPairView::built(
                pair.id,
                *user_id,
                target_text@,
                source_text@,
                target_language@,
                source_language@,
                pair.created_at,
            ),
    {
        let id = fresh_id();
        let created_at = now();
        Self::build(
            id,
            *user_id,
            target_text,
            source_text,
            target_language,
            source_language,
            created_at,
        )
    }
}

/// A word pair under 32-bit identifiers, without a creation stamp.
#[derive(Debug)]
pub struct WordPairDomain {
    pub id: i32,
    pub user_id: i32,
    pub target_text: String,
    pub source_text: String,
    pub target_language: String,
    pub source_language: String,
}

/// What a `WordPairDomain` holds, with its texts as sequences of characters.
pub struct WordPairDomainView {
    pub id: i32,
    pub user_id: i32,
    pub target_text: Seq<char>,
    pub source_text: Seq<char>,
    pub target_language: Seq<char>,
    pub source_language: Seq<char>,
}

impl View for WordPairDomain {
    type V = WordPairDomainView;

    open spec fn view(&self) -> WordPairDomainView {
        WordPairDomainView {
            id: self.id,
            user_id: self.user_id,
            target_text: self.target_text@,
            source_text: self.source_text@,
            target_language: self.target_language@,
            source_language: self.source_language@,
        }
    }
}

impl Clone for WordPairDomain {
    fn clone(&self) -> (copy: Self)
        ensures
            copy == *self,
    {
        WordPairDomain {
            id: self.id,
            user_id: self.user_id,
            target_text: self.target_text.clone(),
            source_text: self.source_text.clone(),
            target_language: self.target_language.clone(),
            source_language: self.source_language.clone(),
        }
    }
}

/// Why a `WordPairDomain` could not be made.
#[derive(Debug)]
pub enum WordPairDomainError {
    Unknown,
}

impl WordPairDomainView {
    /// The word pair that construction yields from its parts: the texts in
    /// title case, the language codes in lower case, the rest as given.
    pub open spec fn built(id: i32, user_id: i32, fields: CreateWordPairFields) -> WordPairDomainView {
        WordPairDomainView {
            id,
            user_id,
            target_text: title_case(fields.target_text),
            source_text: title_case(fields.source_text),
            target_language: lowercase(fields.target_language),
            source_language: lowercase(fields.source_language),
        }
    }
}

/// The characters of the fields that a caller chooses for a word pair.
pub struct CreateWordPairFields {
    pub target_text: Seq<char>,
    pub source_text: Seq<char>,
    pub target_language: Seq<char>,
    pub source_language: Seq<char>,
}

impl View for CreateWordPair {
    type V = CreateWordPairFields;

    open spec fn view(&self) -> CreateWordPairFields {
        CreateWordPairFields {
            target_text: self.target_text@,
            source_text: self.source_text@,
            target_language: self.target_language@,
            source_language: self.source_language@,
        }
    }
}

impl WordPairDomain {
    /// A word pair made of the given parts, normalised. Nothing is drawn
    /// from the random generator.
    pub fn build(id: i32, user_id: i32, fields: &CreateWordPair) -> (pair: Self)
        ensures
            pair@ == WordPairDomainView::built(id, user_id, fields@),
    {
        Self {
            id,
            user_id,
            target_text: normalize_text(fields.target_text.as_str()),
            source_text: normalize_text(fields.source_text.as_str()),
            target_language: normalize_language(fields.target_language.as_str()),
            source_language: normalize_language(fields.source_language.as_str()),
        }
    }

    /// A new word pair of the user `user_id` under a random identifier.
    pub fn new(
        user_id: &i32,
        target_text: &str,
        source_text: &str,
        target_language: &str,
        source_language: &str,
    ) -> (pair: Self)
        ensures
            pair@ == WordPairDomainView::built(
                pair.id,
                *user_id,
                CreateWordPairFields {
                    target_text: target_text@,
                    source_text: source_text@,
                    target_language: target_language@,
                    source_language: source_language@,
                },
            ),
    {
        let id = random_i32();
        let fields = CreateWordPair {
            target_text: target_text.to_string(),
            source_text: source_text.to_string(),
            target_language: target_language.to_string(),
            source_language: source_language.to_string(),
        };
        Self::build(id, *user_id, &fields)
    }

    /// A new word pair of the user `user_id` from the fields of a request.
    /// It never fails.
    pub fn try_from(user_id: i32, fields: CreateWordPair) -> (made: Result<Self, WordPairDomainError>)
        ensures
            made matches Ok(pair) && pair@ == WordPairDomainView::built(pair.id, user_id, fields@),
    {
        let id = random_i32();
        Ok(Self::build(id, user_id, &fields))
    }
}

} // verus!
