//! Machine translation.

use vstd::prelude::*;

verus! {

/// How a translation adapter fails.
#[derive(Debug)]
pub enum TranslatorFailure {
    /// The adapter does not know the language code it holds.
    UnsupportedLanguage(String),
    /// The adapter could not complete the call; it holds the adapter's
    /// message.
    Failed(String),
}

/// What a `TranslatorFailure` holds, with its text as a sequence of
/// characters.
pub enum TranslatorFailureView {
    UnsupportedLanguage(Seq<char>),
    Failed(Seq<char>),
}

impl View for TranslatorFailure {
    type V = TranslatorFailureView;

    open spec fn view(&self) -> TranslatorFailureView {
        match *self {
            TranslatorFailure::UnsupportedLanguage(language) =>
                TranslatorFailureView::UnsupportedLanguage(language@),
            TranslatorFailure::Failed(message) => TranslatorFailureView::Failed(message@),
        }
    }
}

/// A capability that turns a text in one language into a text in another.
pub trait ITranslator {
    type Item;

    type Error;

    fn translate_text(
        &self,
        source_text: &str,
        source_language: &str,
        target_language: &str,
    ) -> Result<Self::Item, Self::Error>;
}

} // verus!
