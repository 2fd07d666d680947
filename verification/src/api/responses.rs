//! The status and the message under which the transport layer reports each
//! failure. Every operation has its own table; a kind that the operation
//! cannot produce falls to the last line of its table.

use vstd::prelude::*;
use crate::api::validation::InvalidField;
use crate::services::translate_service::{TranslateServiceError, TranslateServiceErrorView};
use crate::services::user_service::{UserServiceError, UserServiceErrorView};
use crate::services::word_pair_service::{WordPairServiceError, WordPairServiceErrorView};

verus! {

/// The request named something that is not supported.
pub const BAD_REQUEST: u16 = 400;

/// No entity matched.
pub const NOT_FOUND: u16 = 404;

/// The request was understood and cannot be carried out as it stands.
pub const UNPROCESSABLE_ENTITY: u16 = 422;

/// The failure lies on the side of the service.
pub const INTERNAL_SERVER_ERROR: u16 = 500;

/// A failure as the transport layer reports it.
#[derive(Clone, Copy, Debug)]
pub struct Rejection {
    pub status: u16,
    pub message: &'static str,
}

/// What a `Rejection` holds, with its message as a sequence of characters.
pub struct RejectionView {
    pub status: u16,
    pub message: Seq<char>,
}

impl View for Rejection {
    type V = RejectionView;

    open spec fn view(&self) -> RejectionView {
        RejectionView { status: self.status, message: self.message@ }
    }
}

impl RejectionView {
    /// How a failed creation of a user is reported.
    pub open spec fn of_user_creation(error: UserServiceErrorView) -> RejectionView {
        match error {
            UserServiceErrorView::Database(_) => RejectionView {
                status: INTERNAL_SERVER_ERROR,
                message: "Internal server error"@,
            },
            UserServiceErrorView::InvalidKey(_) => RejectionView {
                status: UNPROCESSABLE_ENTITY,
                message: "Key is invalid"@,
            },
            UserServiceErrorView::InvalidPassword(_) => RejectionView {
                status: UNPROCESSABLE_ENTITY,
                message: "Password is too easy"@,
            },
            UserServiceErrorView::KeyAlreadyExists(_) => RejectionView {
                status: UNPROCESSABLE_ENTITY,
                message: "Key already exists"@,
            },
            _ => RejectionView { status: INTERNAL_SERVER_ERROR, message: "Unknown error"@ },
        }
    }

    /// How a failed lookup or deletion of a user is reported.
    pub open spec fn of_user_lookup(error: UserServiceErrorView) -> RejectionView {
        match error {
            UserServiceErrorView::Database(_) => RejectionView {
                status: INTERNAL_SERVER_ERROR,
                message: "Internal server error"@,
            },
            UserServiceErrorView::NotFound(_) => RejectionView {
                status: NOT_FOUND,
                message: "User not found"@,
            },
            _ => RejectionView { status: INTERNAL_SERVER_ERROR, message: "Unknown error"@ },
        }
    }

    /// How a failed update of a user is reported.
    pub open spec fn of_user_update(error: UserServiceErrorView) -> RejectionView {
        match error {
            UserServiceErrorView::Database(_) => RejectionView {
                status: INTERNAL_SERVER_ERROR,
                message: "Internal server error"@,
            },
            UserServiceErrorView::NotFound(_) => RejectionView {
                status: NOT_FOUND,
                message: "User not found"@,
            },
            UserServiceErrorView::InvalidKey(_) => RejectionView {
                status: UNPROCESSABLE_ENTITY,
                message: "Key is invalid"@,
            },
            UserServiceErrorView::InvalidPassword(_) => RejectionView {
                status: UNPROCESSABLE_ENTITY,
                message: "Password is too easy"@,
            },
            UserServiceErrorView::KeyAlreadyExists(_) => RejectionView {
                status: UNPROCESSABLE_ENTITY,
                message: "Key already exists"@,
            },
            _ => RejectionView { status: INTERNAL_SERVER_ERROR, message: "Unknown error"@ },
        }
    }

    /// How a failed creation of a word pair is reported.
    pub open spec fn of_word_pair_creation(error: WordPairServiceErrorView) -> RejectionView {
        match error {
            WordPairServiceErrorView::Database(_) => RejectionView {
                status: INTERNAL_SERVER_ERROR,
                message: "Internal server error"@,
            },
            WordPairServiceErrorView::WordPairAlreadyExists(_) => RejectionView {
                status: UNPROCESSABLE_ENTITY,
                message: "Word pair exists"@,
            },
            _ => RejectionView { status: INTERNAL_SERVER_ERROR, message: "Unknown error"@ },
        }
    }

    /// How a failed lookup, listing or deletion of word pairs is reported.
    pub open spec fn of_word_pair_lookup(error: WordPairServiceErrorView) -> RejectionView {
        match error {
            WordPairServiceErrorView::Database(_) => RejectionView {
                status: INTERNAL_SERVER_ERROR,
                message: "Internal server error"@,
            },
            WordPairServiceErrorView::NotFound(_) => RejectionView {
                status: NOT_FOUND,
                message: "Word pair not found"@,
            },
            _ => RejectionView { status: INTERNAL_SERVER_ERROR, message: "Unknown error"@ },
        }
    }

    /// How a failed translation is reported.
    pub open spec fn of_translation(error: TranslateServiceErrorView) -> RejectionView {
        match error {
            TranslateServiceErrorView::TranslatorError(_) => RejectionView {
                status: INTERNAL_SERVER_ERROR,
                message: "Translation failed"@,
            },
            TranslateServiceErrorView::NotFoundLanguage(_) => RejectionView {
                status: BAD_REQUEST,
                message: "Language not found"@,
            },
            _ => RejectionView { status: INTERNAL_SERVER_ERROR, message: "Unknown error"@ },
        }
    }

    /// How a request with a field out of its bounds is reported.
    pub open spec fn of_invalid_field(field: InvalidField) -> RejectionView {
        RejectionView {
            status: UNPROCESSABLE_ENTITY,
            message: match field {
                InvalidField::Key => "Key is invalid"@,
                InvalidField::Name => "Name is invalid"@,
                InvalidField::SourceText => "Source text is invalid"@,
                InvalidField::TargetLanguage => "Target language is invalid"@,
                InvalidField::SourceLanguage => "Source language is invalid"@,
            },
        }
    }
}

/// The report of a failed creation of a user.
pub fn user_creation_rejection(error: &UserServiceError) -> (rejection: Rejection)
    ensures
        rejection@ == RejectionView::of_user_creation(error@),
{
    match error {
        UserServiceError::Database(_) => Rejection {
            status: INTERNAL_SERVER_ERROR,
            message: "Internal server error",
        },
        UserServiceError::InvalidKey(_) => Rejection {
            status: UNPROCESSABLE_ENTITY,
            message: "Key is invalid",
        },
        UserServiceError::InvalidPassword(_) => Rejection {
            status: UNPROCESSABLE_ENTITY,
            message: "Password is too easy",
        },
        UserServiceError::KeyAlreadyExists(_) => Rejection {
            status: UNPROCESSABLE_ENTITY,
            message: "Key already exists",
        },
        _ => Rejection { status: INTERNAL_SERVER_ERROR, message: "Unknown error" },
    }
}

/// The report of a failed lookup or deletion of a user.
pub fn user_lookup_rejection(error: &UserServiceError) -> (rejection: Rejection)
    ensures
        rejection@ == RejectionView::of_user_lookup(error@),
{
    match error {
        UserServiceError::Database(_) => Rejection {
            status: INTERNAL_SERVER_ERROR,
            message: "Internal server error",
        },
        UserServiceError::NotFound(_) => Rejection { status: NOT_FOUND, message: "User not found" },
        _ => Rejection { status: INTERNAL_SERVER_ERROR, message: "Unknown error" },
    }
}

/// The report of a failed update of a user.
pub fn user_update_rejection(error: &UserServiceError) -> (rejection: Rejection)
    ensures
        rejection@ == RejectionView::of_user_update(error@),
{
    match error {
        UserServiceError::Database(_) => Rejection {
            status: INTERNAL_SERVER_ERROR,
            message: "Internal server error",
        },
        UserServiceError::NotFound(_) => Rejection { status: NOT_FOUND, message: "User not found" },
        UserServiceError::InvalidKey(_) => Rejection {
            status: UNPROCESSABLE_ENTITY,
            message: "Key is invalid",
        },
        UserServiceError::InvalidPassword(_) => Rejection {
            status: UNPROCESSABLE_ENTITY,
            message: "Password is too easy",
        },
        UserServiceError::KeyAlreadyExists(_) => Rejection {
            status: UNPROCESSABLE_ENTITY,
            message: "Key already exists",
        },
        _ => Rejection { status: INTERNAL_SERVER_ERROR, message: "Unknown error" },
    }
}

/// The report of a failed creation of a word pair.
pub fn word_pair_creation_rejection(error: &WordPairServiceError) -> (rejection: Rejection)
    ensures
        rejection@ == RejectionView::of_word_pair_creation(error@),
{
    match error {
        WordPairServiceError::Database(_) => Rejection {
            status: INTERNAL_SERVER_ERROR,
            message: "Internal server error",
        },
        WordPairServiceError::WordPairAlreadyExists(_) => Rejection {
            status: UNPROCESSABLE_ENTITY,
            message: "Word pair exists",
        },
        _ => Rejection { status: INTERNAL_SERVER_ERROR, message: "Unknown error" },
    }
}

/// The report of a failed lookup, listing or deletion of word pairs.
pub fn word_pair_lookup_rejection(error: &WordPairServiceError) -> (rejection: Rejection)
    ensures
        rejection@ == RejectionView::of_word_pair_lookup(error@),
{
    match error {
        WordPairServiceError::Database(_) => Rejection {
            status: INTERNAL_SERVER_ERROR,
            message: "Internal server error",
        },
        WordPairServiceError::NotFound(_) => Rejection {
            status: NOT_FOUND,
            message: "Word pair not found",
        },
        _ => Rejection { status: INTERNAL_SERVER_ERROR, message: "Unknown error" },
    }
}

/// The report of a failed translation.
pub fn translation_rejection(error: &TranslateServiceError) -> (rejection: Rejection)
    ensures
        rejection@ == RejectionView::of_translation(error@),
{
    match error {
        TranslateServiceError::TranslatorError(_) => Rejection {
            status: INTERNAL_SERVER_ERROR,
            message: "Translation failed",
        },
        TranslateServiceError::NotFoundLanguage(_) => Rejection {
            status: BAD_REQUEST,
            message: "Language not found",
        },
        _ => Rejection { status: INTERNAL_SERVER_ERROR, message: "Unknown error" },
    }
}

/// The report of a request with a field out of its bounds.
pub fn invalid_field_rejection(field: InvalidField) -> (rejection: Rejection)
    ensures
        rejection@ == RejectionView::of_invalid_field(field),
{
    let message = match field {
        InvalidField::Key => "Key is invalid",
        InvalidField::Name => "Name is invalid",
        InvalidField::SourceText => "Source text is invalid",
        InvalidField::TargetLanguage => "Target language is invalid",
        InvalidField::SourceLanguage => "Source language is invalid",
    };
    Rejection { status: UNPROCESSABLE_ENTITY, message }
}

} // verus!
