//! A completed translation. It lives for one request and is never stored.

use vstd::prelude::*;

verus! {

#[derive(Debug)]
pub struct Translation {
    pub target_text: String,
    pub source_text: String,
    pub target_language: String,
    pub source_language: String,
}

/// What a `Translation` holds, as sequences of characters.
pub struct TranslationView {
    pub target_text: Seq<char>,
    pub source_text: Seq<char>,
    pub target_language: Seq<char>,
    pub source_language: Seq<char>,
}

impl View for Translation {
    type V = TranslationView;

    open spec fn view(&self) -> TranslationView {
        TranslationView {
            target_text: self.target_text@,
            source_text: self.source_text@,
            target_language: self.target_language@,
            source_language: self.source_language@,
        }
    }
}

impl Translation {
    /// A translation holding the four texts as given, with no normalisation.
    pub fn new(
        target_text: &str,
        source_text: &str,
        target_language: &str,
        source_language: &str,
    ) -> (translation: Self)
        ensures
            translation@ == (TranslationView {
                target_text: target_text@,
                source_text: source_text@,
                target_language: target_language@,
                source_language: source_language@,
            }),
    {
        Self {
            target_text: target_text.to_string(),
            source_text: source_text.to_string(),
            target_language: target_language.to_string(),
            source_language: source_language.to_string(),
        }
    }
}

} // verus!
