//! The translation service.

use vstd::prelude::*;
use vstd::string::*;
use crate::domain::translate::{Translation, TranslationView};
use crate::traits::translator::{ITranslator, TranslatorFailure, TranslatorFailureView};

verus! {

/// How a translation fails.
#[derive(Debug)]
pub enum TranslateServiceError {
    /// The adapter does not know the language code it carries.
    NotFoundLanguage(String),
    /// The adapter failed. It carries the adapter's message.
    TranslatorError(String),
    /// Never produced by this crate.
    Unknown,
}

/// What a `TranslateServiceError` holds, with its text as a sequence of
/// characters.
pub enum TranslateServiceErrorView {
    NotFoundLanguage(Seq<char>),
    TranslatorError(Seq<char>),
    Unknown,
}

impl View for TranslateServiceError {
    type V = TranslateServiceErrorView;

    open spec fn view(&self) -> TranslateServiceErrorView {
        match *self {
            TranslateServiceError::NotFoundLanguage(language) =>
                TranslateServiceErrorView::NotFoundLanguage(language@),
            TranslateServiceError::TranslatorError(message) =>
                TranslateServiceErrorView::TranslatorError(message@),
            TranslateServiceError::Unknown => TranslateServiceErrorView::Unknown,
        }
    }
}

impl TranslateServiceErrorView {
    /// The failure that a failure of the adapter comes to: a language that
    /// the adapter does not know is `NotFoundLanguage`, every other failure
    /// is `TranslatorError`.
    pub open spec fn of_adapter(failure: TranslatorFailureView) -> TranslateServiceErrorView {
        match failure {
            TranslatorFailureView::UnsupportedLanguage(language) =>
                TranslateServiceErrorView::NotFoundLanguage(language),
            TranslatorFailureView::Failed(message) => TranslateServiceErrorView::TranslatorError(
                message,
            ),
        }
    }

    /// The text under which the failure is reported.
    pub open spec fn text(self) -> Seq<char> {
        match self {
            TranslateServiceErrorView::NotFoundLanguage(language) => "Language not found: `"@
                + language + "`"@,
            TranslateServiceErrorView::TranslatorError(message) => "Translation failed: `"@
                + message + "`"@,
            TranslateServiceErrorView::Unknown => "Unknown error"@,
        }
    }
}

impl TranslateServiceError {
    /// Classifies a failure of the adapter.
    pub fn from_adapter(failure: TranslatorFailure) -> (classified: Self)
        ensures
            classified@ == TranslateServiceErrorView::of_adapter(failure@),
    {
        match failure {
            TranslatorFailure::UnsupportedLanguage(language) =>
                TranslateServiceError::NotFoundLanguage(language),
            TranslatorFailure::Failed(message) => TranslateServiceError::TranslatorError(message),
        }
    }

    /// The text under which the failure is reported.
    pub fn message(&self) -> (message: String)
        ensures
            message@ == self@.text(),
    {
        match self {
            TranslateServiceError::NotFoundLanguage(language) => String::from_str(
                "Language not found: `",
            ).concat(language.as_str()).concat("`"),
            TranslateServiceError::TranslatorError(message) => String::from_str(
                "Translation failed: `",
            ).concat(message.as_str()).concat("`"),
            TranslateServiceError::Unknown => String::from_str("Unknown error"),
        }
    }
}

/// Whether `outcome` is what the adapter's answer to a request comes to:
/// the translation made of the adapter's text beside the text and the
/// language codes of the request, or the failure classified.
pub open spec fn translation_resolves(
    answer: Result<String, TranslatorFailure>,
    source_text: Seq<char>,
    target_language: Seq<char>,
    source_language: Seq<char>,
    outcome: Result<Translation, TranslateServiceError>,
) -> bool {
    match answer {
        Ok(target_text) => outcome matches Ok(translation) && translation@ == (TranslationView {
            target_text: target_text@,
            source_text: source_text,
            target_language: target_language,
            source_language: source_language,
        }),
        Err(failure) => outcome matches Err(error) && error@
            == TranslateServiceErrorView::of_adapter(failure@),
    }
}

/// What a translation request comes to, from what the adapter answered.
pub fn translation_outcome(
    answer: Result<String, TranslatorFailure>,
    source_text: &str,
    target_language: &str,
    source_language: &str,
) -> (outcome: Result<Translation, TranslateServiceError>)
    ensures
        translation_resolves(answer, source_text@, target_language@, source_language@, outcome),
{
    match answer {
        Ok(target_text) => Ok(
            Translation::new(
                target_text.as_str(),
                source_text,
                target_language,
                source_language,
            ),
        ),
        Err(failure) => Err(TranslateServiceError::from_adapter(failure)),
    }
}

/// Translation through an adapter.
pub struct TranslateService<Translator> {
    pub translator: Translator,
}

impl<Translator: Clone> Clone for TranslateService<Translator> {
    fn clone(&self) -> Self {
        Self { translator: self.translator.clone() }
    }
}

impl<Translator> TranslateService<Translator> where
    Translator: ITranslator<Item = String, Error = TranslatorFailure>,
 {
    pub fn new(translator: Translator) -> (service: Self)
        ensures
            service.translator == translator,
    {
        Self { translator: translator }
    }

    /// Translates `source_text` from `source_language` to
    /// `target_language` through the adapter.
    ///
    /// The outcome is what `translation_resolves` makes of the answer that
    /// the adapter gave when asked for the text, the source language and
    /// the target language, in that order: on success the adapter's text
    /// beside the text and the language codes of the request as they were
    /// given, on a language that the adapter does not know
    /// `NotFoundLanguage`, on any other failure `TranslatorError`.
    pub fn translate_text(
        &self,
        source_text: &str,
        target_language: &str,
        source_language: &str,
    ) -> (translated: Result<Translation, TranslateServiceError>)
        ensures
            exists|answer: Result<String, TranslatorFailure>|
                {
                    &&& #[trigger] call_ensures(
                        Translator::translate_text,
                        (&self.translator, source_text, source_language, target_language),
                        answer,
                    )
                    &&& translation_resolves(
                        answer,
                        source_text@,
                        target_language@,
                        source_language@,
                        translated,
                    )
                },
            translated matches Ok(translation) ==> {
                &&& translation.source_text@ == source_text@
                &&& translation.target_language@ == target_language@
                &&& translation.source_language@ == source_language@
            },
            translated matches Err(error) ==> error@ is NotFoundLanguage || error@
                is TranslatorError,
    {
        let answer = self.translator.translate_text(source_text, source_language, target_language);
        translation_outcome(answer, source_text, target_language, source_language)
    }
}

} // verus!
