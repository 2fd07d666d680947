//! Classification of what the store reports into the three kinds of
//! repository failure.

use vstd::prelude::*;
use vstd::string::*;
use crate::traits::repository::{RepositoryError, RepositoryErrorView};

verus! {

/// The error type of the store's driver, `sqlx::Error`. Its contents are
/// unknown to the verifier.
#[verifier::external_type_specification]
#[verifier::external_body]
pub struct ExSqlxError(sqlx::Error);

/// What the store's driver reports of a failed statement, as plain values.
#[derive(Debug)]
pub struct StoreFailure {
    /// A statement that expects a row found none.
    pub row_not_found: bool,
    /// The SQLSTATE code, where the database engine itself reported the
    /// failure and gave one.
    pub sqlstate: Option<String>,
    /// The driver's message.
    pub message: String,
}

/// What a `StoreFailure` holds, with its texts as sequences of characters.
pub struct StoreFailureView {
    pub row_not_found: bool,
    pub sqlstate: Option<Seq<char>>,
    pub message: Seq<char>,
}

impl View for StoreFailure {
    type V = StoreFailureView;

    open spec fn view(&self) -> StoreFailureView {
        StoreFailureView {
            row_not_found: self.row_not_found,
            sqlstate: match self.sqlstate {
                Some(code) => Some(code@),
                None => None,
            },
            message: self.message@,
        }
    }
}

/// The SQLSTATE code by which the store signals a violated uniqueness
/// constraint.
pub const UNIQUE_VIOLATION: &'static str = "23505";

impl StoreFailureView {
    /// Whether the store signalled a violated uniqueness constraint.
    pub open spec fn is_unique_violation(self) -> bool {
        self.sqlstate == Some(UNIQUE_VIOLATION@)
    }

    /// The repository failure that this report comes to: a missing row is
    /// `NotFound`, a violated uniqueness constraint is `Conflict`, and
    /// everything else is `StorageFailure`. The driver's message is kept.
    pub open spec fn classified(self) -> RepositoryErrorView {
        if self.row_not_found {
            RepositoryErrorView::NotFound(self.message)
        } else if self.is_unique_violation() {
            RepositoryErrorView::Conflict(self.message)
        } else {
            RepositoryErrorView::StorageFailure(self.message)
        }
    }
}

/// Reads a `sqlx::Error` into plain values: whether it is the variant
/// `RowNotFound`, the code that `DatabaseError::code` gives where it is the
/// variant `Database`, and its `Display` text. Nothing is promised of the
/// values.
#[verifier::external_body]
fn describe_sqlx_error(error: &sqlx::Error) -> StoreFailure {
    StoreFailure {
        row_not_found: matches!(error, sqlx::Error::RowNotFound),
        sqlstate: error.as_database_error().and_then(|db| db.code()).map(|code| code.into_owned()),
        message: error.to_string(),
    }
}

/// Whether `failure` is a reading of the driver's error `error` into plain
/// values: an outcome of reading its variant, its SQLSTATE code and its
/// text. The reading is made by the driver's own accessors, so nothing more
/// is known of it here.
pub closed spec fn reads_as(error: &sqlx::Error, failure: StoreFailure) -> bool {
    call_ensures(describe_sqlx_error, (error,), failure)
}

impl StoreFailure {
    /// Whether the store signalled a violated uniqueness constraint.
    pub fn signals_unique_violation(&self) -> (violated: bool)
        ensures
            violated == self@.is_unique_violation(),
    {
        match &self.sqlstate {
            Some(code) => {
                let wanted = String::from_str(UNIQUE_VIOLATION);
                *code == wanted
            },
            None => false,
        }
    }
}

impl RepositoryError {
    /// The repository failure that a report of the store comes to. It keeps
    /// the driver's message.
    pub fn classify(failure: StoreFailure) -> (error: RepositoryError)
        ensures
            error@ == failure@.classified(),
    {
        if failure.row_not_found {
            RepositoryError::NotFound(failure.message)
        } else if failure.signals_unique_violation() {
            RepositoryError::Conflict(failure.message)
        } else {
            RepositoryError::StorageFailure(failure.message)
        }
    }

    /// The repository failure that an error of the store's driver comes to:
    /// the error is read into plain values, and the outcome is what
    /// `classified` makes of that reading. So an error that reads as a
    /// missing row comes out as `NotFound`, one that reads as a violated
    /// uniqueness constraint as `Conflict`, every other one as
    /// `StorageFailure`, each with the driver's message.
    pub fn from_store_error(error: &sqlx::Error) -> (classified: RepositoryError)
        ensures
            exists|failure: StoreFailure|
                {
                    &&& #[trigger] reads_as(error, failure)
                    &&& classified@ == failure@.classified()
                },
    {
        let failure = describe_sqlx_error(error);
        assert(reads_as(error, failure));
        RepositoryError::classify(failure)
    }
}

} // verus!
