//! Request and response objects for translation.

use vstd::prelude::*;
use crate::domain::translate::Translation;

verus! {

/// A completed translation as the transport layer shows it.
#[derive(Debug)]
pub struct TranslatedDTO {
    pub target_text: String,
    pub source_text: String,
    pub target_language: String,
    pub source_language: String,
}

impl Clone for TranslatedDTO {
    fn clone(&self) -> (copy: Self)
        ensures
            copy == *self,
    {
        TranslatedDTO {
            target_text: self.target_text.clone(),
            source_text: self.source_text.clone(),
            target_language: self.target_language.clone(),
            source_language: self.source_language.clone(),
        }
    }
}

/// The request to translate a text.
#[derive(Debug)]
pub struct TranslateDTO {
    pub source_text: String,
    pub target_language: String,
    pub source_language: String,
}

impl Clone for TranslateDTO {
    fn clone(&self) -> (copy: Self)
        ensures
            copy == *self,
    {
        TranslateDTO {
            source_text: self.source_text.clone(),
            target_language: self.target_language.clone(),
            source_language: self.source_language.clone(),
        }
    }
}

impl TranslatedDTO {
    /// What the transport layer shows of a completed translation: its four
    /// texts as they are.
    pub open spec fn shown(translation: Translation) -> TranslatedDTO {
        TranslatedDTO {
            target_text: translation.target_text,
            source_text: translation.source_text,
            target_language: translation.target_language,
            source_language: translation.source_language,
        }
    }

    /// The response for a completed translation.
    pub fn of_translation(translation: Translation) -> (shown: Self)
        ensures
            shown == Self::shown(translation),
    {
        TranslatedDTO {
            target_text: translation.target_text,
            source_text: translation.source_text,
            target_language: translation.target_language,
            source_language: translation.source_language,
        }
    }
}

} // verus!
