//! The user service.

use vstd::prelude::*;
use vstd::string::*;
use crate::api::user::{CreateUserDTO, UpdateUserDTO};
use crate::domain::user::{User, UserView};
use crate::password::{Argon2Crypto, CryptoError, argon2_accepts, phc_well_formed};
use crate::storage::entities::UserEntity;
use crate::text::optional_text;
use crate::traits::crypto::ICrypto;
use crate::traits::repository::{
    IUserRepository,
    Repository,
    RepositoryError,
    RepositoryErrorView,
};
use crate::types::{ID, is_random_uuid};

verus! {

/// How an operation on users fails.
#[derive(Debug)]
pub enum UserServiceError {
    /// The store holds another user under the key it carries.
    KeyAlreadyExists(String),
    /// Kept for the validation of keys.
    InvalidKey(String),
    /// Kept for the validation of passwords.
    InvalidPassword(String),
    /// No user matched. It carries the store's message.
    NotFound(String),
    /// Any other failure of the store. It carries the store's message.
    Database(String),
    /// The password could not be hashed. It carries the reason.
    Crypto(String),
    /// Never produced by this crate.
    Unknown,
}

/// What a `UserServiceError` holds, with its text as a sequence of
/// characters.
pub enum UserServiceErrorView {
    KeyAlreadyExists(Seq<char>),
    InvalidKey(Seq<char>),
    InvalidPassword(Seq<char>),
    NotFound(Seq<char>),
    Database(Seq<char>),
    Crypto(Seq<char>),
    Unknown,
}

impl View for UserServiceError {
    type V = UserServiceErrorView;

    open spec fn view(&self) -> UserServiceErrorView {
        match *self {
            UserServiceError::KeyAlreadyExists(key) => UserServiceErrorView::KeyAlreadyExists(key@),
            UserServiceError::InvalidKey(key) => UserServiceErrorView::InvalidKey(key@),
            UserServiceError::InvalidPassword(reason) => UserServiceErrorView::InvalidPassword(
                reason@,
            ),
            UserServiceError::NotFound(message) => UserServiceErrorView::NotFound(message@),
            UserServiceError::Database(message) => UserServiceErrorView::Database(message@),
            UserServiceError::Crypto(reason) => UserServiceErrorView::Crypto(reason@),
            UserServiceError::Unknown => UserServiceErrorView::Unknown,
        }
    }
}

impl UserServiceErrorView {
    /// The failure of a lookup or a deletion: a missing row is `NotFound`,
    /// every other failure of the store is `Database`.
    pub open spec fn of_lookup(error: RepositoryErrorView) -> UserServiceErrorView {
        match error {
            RepositoryErrorView::NotFound(message) => UserServiceErrorView::NotFound(message),
            RepositoryErrorView::Conflict(message) => UserServiceErrorView::Database(message),
            RepositoryErrorView::StorageFailure(message) => UserServiceErrorView::Database(
                message,
            ),
        }
    }

    /// The failure of the insertion of a user with the key `key`: a
    /// violated uniqueness constraint is `KeyAlreadyExists` with that key,
    /// every other failure of the store is `Database`.
    pub open spec fn of_insert(error: RepositoryErrorView, key: Seq<char>) -> UserServiceErrorView {
        match error {
            RepositoryErrorView::Conflict(_) => UserServiceErrorView::KeyAlreadyExists(key),
            RepositoryErrorView::NotFound(message) => UserServiceErrorView::Database(message),
            RepositoryErrorView::StorageFailure(message) => UserServiceErrorView::Database(
                message,
            ),
        }
    }

    /// The failure of the rewrite of a user under the key `key`: a violated
    /// uniqueness constraint is `KeyAlreadyExists` with that key, a missing
    /// row is `NotFound`, every other failure of the store is `Database`.
    pub open spec fn of_update(error: RepositoryErrorView, key: Seq<char>) -> UserServiceErrorView {
        match error {
            RepositoryErrorView::Conflict(_) => UserServiceErrorView::KeyAlreadyExists(key),
            RepositoryErrorView::NotFound(message) => UserServiceErrorView::NotFound(message),
            RepositoryErrorView::StorageFailure(message) => UserServiceErrorView::Database(
                message,
            ),
        }
    }

    /// The text under which the failure is reported.
    pub open spec fn text(self) -> Seq<char> {
        match self {
            UserServiceErrorView::KeyAlreadyExists(key) => "User with this key already exists: "@
                + key,
            UserServiceErrorView::InvalidKey(key) => "Invalid user key: "@ + key,
            UserServiceErrorView::InvalidPassword(reason) => "Password is too easy: "@ + reason,
            UserServiceErrorView::NotFound(message) => "User not found: `"@ + message + "`"@,
            UserServiceErrorView::Database(message) => "Database error: `"@ + message + "`"@,
            UserServiceErrorView::Crypto(reason) => "Crypto driver error: `"@ + reason + "`"@,
            UserServiceErrorView::Unknown => "Unknown error"@,
        }
    }
}

impl UserServiceError {
    /// Classifies the failure of a lookup or a deletion.
    pub fn from_lookup(error: RepositoryError) -> (classified: Self)
        ensures
            classified@ == UserServiceErrorView::of_lookup(error@),
    {
        match error {
            RepositoryError::NotFound(message) => UserServiceError::NotFound(message),
            RepositoryError::Conflict(message) => UserServiceError::Database(message),
            RepositoryError::StorageFailure(message) => UserServiceError::Database(message),
        }
    }

    /// Classifies the failure of the insertion of a user with the key
    /// `key`.
    pub fn from_insert(error: RepositoryError, key: &str) -> (classified: Self)
        ensures
            classified@ == UserServiceErrorView::of_insert(error@, key@),
    {
        match error {
            RepositoryError::Conflict(_) => UserServiceError::KeyAlreadyExists(key.to_string()),
            RepositoryError::NotFound(message) => UserServiceError::Database(message),
            RepositoryError::StorageFailure(message) => UserServiceError::Database(message),
        }
    }

    /// Classifies the failure of the rewrite of a user under the key `key`.
    pub fn from_update(error: RepositoryError, key: &str) -> (classified: Self)
        ensures
            classified@ == UserServiceErrorView::of_update(error@, key@),
    {
        match error {
            RepositoryError::Conflict(_) => UserServiceError::KeyAlreadyExists(key.to_string()),
            RepositoryError::NotFound(message) => UserServiceError::NotFound(message),
            RepositoryError::StorageFailure(message) => UserServiceError::Database(message),
        }
    }

    /// Classifies the failure of the hashing of a password.
    pub fn from_crypto(error: CryptoError) -> (classified: Self)
        ensures
            classified@ == UserServiceErrorView::Crypto(error.text()),
    {
        UserServiceError::Crypto(error.message())
    }

    /// The text under which the failure is reported.
    pub fn message(&self) -> (message: String)
        ensures
            message@ == self@.text(),
    {
        match self {
            UserServiceError::KeyAlreadyExists(key) => String::from_str(
                "User with this key already exists: ",
            ).concat(key.as_str()),
            UserServiceError::InvalidKey(key) => String::from_str("Invalid user key: ").concat(
                key.as_str(),
            ),
            UserServiceError::InvalidPassword(reason) => String::from_str(
                "Password is too easy: ",
            ).concat(reason.as_str()),
            UserServiceError::NotFound(message) => String::from_str("User not found: `").concat(
                message.as_str(),
            ).concat("`"),
            UserServiceError::Database(message) => String::from_str("Database error: `").concat(
                message.as_str(),
            ).concat("`"),
            UserServiceError::Crypto(reason) => String::from_str("Crypto driver error: `").concat(
                reason.as_str(),
            ).concat("`"),
            UserServiceError::Unknown => String::from_str("Unknown error"),
        }
    }
}

/// Whether `outcome` is what the repository's answer to a lookup comes to:
/// the user it found, or the failure classified as a lookup's.
pub open spec fn lookup_resolves(
    answer: Result<User, RepositoryError>,
    outcome: Result<User, UserServiceError>,
) -> bool {
    match answer {
        Ok(user) => outcome == Ok::<User, UserServiceError>(user),
        Err(error) => outcome matches Err(failure) && failure@ == UserServiceErrorView::of_lookup(
            error@,
        ),
    }
}

/// Whether `outcome` is what the repository's answer to a deletion comes
/// to: success, or the failure classified as a lookup's.
pub open spec fn deletion_resolves(
    answer: Result<(), RepositoryError>,
    outcome: Result<(), UserServiceError>,
) -> bool {
    match answer {
        Ok(_) => outcome is Ok,
        Err(error) => outcome matches Err(failure) && failure@ == UserServiceErrorView::of_lookup(
            error@,
        ),
    }
}

/// Whether `outcome` is what the repository's answer to the insertion of a
/// user with the key `key` comes to: the user as the store holds it, or the
/// failure classified as an insertion's.
pub open spec fn creation_resolves(
    answer: Result<User, RepositoryError>,
    key: Seq<char>,
    outcome: Result<User, UserServiceError>,
) -> bool {
    match answer {
        Ok(user) => outcome == Ok::<User, UserServiceError>(user),
        Err(error) => outcome matches Err(failure) && failure@ == UserServiceErrorView::of_insert(
            error@,
            key,
        ),
    }
}

/// Whether `outcome` is what the repository's answer to the rewrite of a
/// user under the key `key` comes to: the user as the store holds it, or
/// the failure classified as a rewrite's.
pub open spec fn update_resolves(
    answer: Result<User, RepositoryError>,
    key: Seq<char>,
    outcome: Result<User, UserServiceError>,
) -> bool {
    match answer {
        Ok(user) => outcome == Ok::<User, UserServiceError>(user),
        Err(error) => outcome matches Err(failure) && failure@ == UserServiceErrorView::of_update(
            error@,
            key,
        ),
    }
}

/// What the lookup of a user comes to, from what the repository answered.
pub fn lookup_outcome(
    answer: Result<User, RepositoryError>,
) -> (outcome: Result<User, UserServiceError>)
    ensures
        lookup_resolves(answer, outcome),
{
    match answer {
        Ok(user) => Ok(user),
        Err(error) => Err(UserServiceError::from_lookup(error)),
    }
}

/// What the deletion of a user comes to, from what the repository
/// answered.
pub fn deletion_outcome(
    answer: Result<(), RepositoryError>,
) -> (outcome: Result<(), UserServiceError>)
    ensures
        deletion_resolves(answer, outcome),
{
    match answer {
        Ok(_) => Ok(()),
        Err(error) => Err(UserServiceError::from_lookup(error)),
    }
}

/// What the creation of a user with the key `key` comes to, from what the
/// repository answered to the insertion.
pub fn creation_outcome(
    answer: Result<User, RepositoryError>,
    key: &str,
) -> (outcome: Result<User, UserServiceError>)
    ensures
        creation_resolves(answer, key@, outcome),
{
    match answer {
        Ok(user) => Ok(user),
        Err(error) => Err(UserServiceError::from_insert(error, key)),
    }
}

/// What the update of a user comes to, from what the repository answered
/// to the rewrite of the user under the key `key`.
pub fn update_outcome(
    answer: Result<User, RepositoryError>,
    key: &str,
) -> (outcome: Result<User, UserServiceError>)
    ensures
        update_resolves(answer, key@, outcome),
{
    match answer {
        Ok(user) => Ok(user),
        Err(error) => Err(UserServiceError::from_update(error, key)),
    }
}

/// Every failure of the store is classified as a kind that the operation can
/// report: never as `Unknown`, never as a kind kept for validation, and
/// never as `Crypto`. The store's message is kept, but where a violated
/// uniqueness constraint is reported under the key in question.
pub proof fn lemma_store_failures_are_classified(error: RepositoryErrorView, key: Seq<char>)
    ensures
        UserServiceErrorView::of_lookup(error) == (if error is NotFound {
            UserServiceErrorView::NotFound(error.text())
        } else {
            UserServiceErrorView::Database(error.text())
        }),
        UserServiceErrorView::of_insert(error, key) == (if error is Conflict {
            UserServiceErrorView::KeyAlreadyExists(key)
        } else {
            UserServiceErrorView::Database(error.text())
        }),
        UserServiceErrorView::of_update(error, key) == (if error is Conflict {
            UserServiceErrorView::KeyAlreadyExists(key)
        } else if error is NotFound {
            UserServiceErrorView::NotFound(error.text())
        } else {
            UserServiceErrorView::Database(error.text())
        }),
{
}

/// Where the store answers the insertion of a user with a violated
/// uniqueness constraint, the creation fails with `KeyAlreadyExists` under
/// the key of the request; where it answers with a user, the creation
/// succeeds with that user.
pub proof fn lemma_conflict_on_insert_is_key_already_exists(
    answer: Result<User, RepositoryError>,
    key: Seq<char>,
    outcome: Result<User, UserServiceError>,
)
    requires
        creation_resolves(answer, key, outcome),
    ensures
        answer matches Err(error) ==> (error@ is Conflict ==> (outcome matches Err(failure)
            && failure@ == UserServiceErrorView::KeyAlreadyExists(key))),
        answer matches Ok(user) ==> outcome == Ok::<User, UserServiceError>(user),
        outcome is Ok <==> answer is Ok,
{
}

/// Whether `user` is a user that the request `params` is made into for
/// insertion: its key is that of the request, its name is that of the
/// request in title case, its password hash is a well-formed hash that
/// accepts the password of the request, its identifier has the shape of a
/// random UUID, and its stamps are valid.
pub open spec fn made_from(params: &CreateUserDTO, user: User) -> bool {
    &&& user@ == UserView::built(
        user.id,
        params.key@,
        params.name@,
        user.hashed_password@,
        user.created_at,
        user.updated_at,
    )
    &&& is_random_uuid(user.id)
    &&& user.created_at.is_valid()
    &&& user.updated_at.is_valid()
    &&& phc_well_formed(user.hashed_password@)
    &&& argon2_accepts(params.password@, user.hashed_password@)
}

/// Whether `written` is the stored user `stored` with the request `params`
/// merged into it under a valid stamp.
pub open spec fn merged_from(stored: User, params: &UpdateUserDTO, written: User) -> bool {
    &&& written.updated_at.is_valid()
    &&& written@ == stored@.merged(
        optional_text(params.key),
        optional_text(params.name),
        written.updated_at,
    )
}

/// Operations on users over a repository.
pub struct UserService<Repo> {
    repo: Repo,
}

impl<Repo: Clone> Clone for UserService<Repo> {
    fn clone(&self) -> Self {
        Self { repo: self.repo.clone() }
    }
}

impl<Repo> UserService<Repo> {
    /// The repository that the service works on.
    pub closed spec fn repository(&self) -> Repo {
        self.repo
    }
}

impl<Repo> UserService<Repo> where
    Repo: Repository<Item = User, Entity = UserEntity, Error = RepositoryError>,
 {
    pub fn new(repo: Repo) -> (service: Self)
        ensures
            service.repository() == repo,
    {
        Self { repo: repo }
    }

    /// Creates a user: hashes the password, makes the user under a fresh
    /// identifier with its name in title case and both stamps read from the
    /// clock, and inserts it.
    ///
    /// Where the hashing fails the outcome is `Crypto` and the repository
    /// is not asked. Otherwise the outcome is what `creation_resolves`
    /// makes of the answer that the repository gave to the insertion of a
    /// user made from the request: on success the user as the store holds
    /// it, on a violated uniqueness constraint `KeyAlreadyExists` with the
    /// key of the request, on any other failure `Database`.
    pub fn create(&self, params: &CreateUserDTO) -> (created: Result<User, UserServiceError>)
        ensures
            (created matches Err(failure) && failure@ is Crypto) || (exists|
                user: User,
                answer: Result<User, RepositoryError>,
            |
                {
                    &&& made_from(params, user)
                    &&& #[trigger] call_ensures(Repo::insert, (&self.repository(), &user), answer)
                    &&& creation_resolves(answer, params.key@, created)
                }),
            created matches Err(failure) ==> {
                ||| failure@ is Crypto
                ||| failure@ == UserServiceErrorView::KeyAlreadyExists(params.key@)
                ||| failure@ is Database
            },
    {
        let crypto_driver = Argon2Crypto;
        let hashed_password = match crypto_driver.hash(params.password.as_str()) {
            Ok(hashed) => hashed,
            Err(error) => {
                return Err(UserServiceError::from_crypto(error));
            },
        };
        let user = User::new_simple(params.key.clone(), params.name.clone(), hashed_password);
        let answer = self.repo.insert(&user);
        assert(call_ensures(Repo::insert, (&self.repository(), &user), answer));
        creation_outcome(answer, params.key.as_str())
    }

    /// The user stored under `id`: what `lookup_resolves` makes of the
    /// answer that the repository gave to `select_by_id(id)`. A missing row
    /// is `NotFound`, every other failure of the store is `Database`.
    pub fn get_by_id(&self, id: &ID) -> (found: Result<User, UserServiceError>)
        ensures
            exists|answer: Result<User, RepositoryError>|
                {
                    &&& #[trigger] call_ensures(
                        Repo::select_by_id,
                        (&self.repository(), id),
                        answer,
                    )
                    &&& lookup_resolves(answer, found)
                },
            found matches Err(failure) ==> failure@ is NotFound || failure@ is Database,
    {
        let answer = self.repo.select_by_id(id);
        lookup_outcome(answer)
    }

    /// Deletes the user stored under `id`: what `deletion_resolves` makes
    /// of the answer that the repository gave to `delete_by_id(id)`. A
    /// missing row is `NotFound`, every other failure of the store is
    /// `Database`.
    pub fn delete_by_id(&self, id: &ID) -> (deleted: Result<(), UserServiceError>)
        ensures
            exists|answer: Result<(), RepositoryError>|
                {
                    &&& #[trigger] call_ensures(
                        Repo::delete_by_id,
                        (&self.repository(), id),
                        answer,
                    )
                    &&& deletion_resolves(answer, deleted)
                },
            deleted matches Err(failure) ==> failure@ is NotFound || failure@ is Database,
    {
        let answer = self.repo.delete_by_id(id);
        deletion_outcome(answer)
    }
}

impl<Repo> UserService<Repo> where Repo: IUserRepository<Error = RepositoryError> {
    /// The user stored under the handle `key`: what `lookup_resolves` makes
    /// of the answer that the repository gave to `select_by_key(key)`. A
    /// missing row is `NotFound`, every other failure of the store is
    /// `Database`.
    pub fn get_by_key(&self, key: &str) -> (found: Result<User, UserServiceError>)
        ensures
            exists|answer: Result<User, RepositoryError>|
                {
                    &&& #[trigger] call_ensures(
                        Repo::select_by_key,
                        (&self.repository(), key),
                        answer,
                    )
                    &&& lookup_resolves(answer, found)
                },
            found matches Err(failure) ==> failure@ is NotFound || failure@ is Database,
    {
        let answer = self.repo.select_by_key(key);
        lookup_outcome(answer)
    }

    /// Updates the user stored under `id`: loads it, merges the fields of
    /// the request that are present, stamps it with the reading of the
    /// clock and writes every field back.
    ///
    /// Where the load fails, the outcome is that failure classified as a
    /// lookup's and nothing is written. Otherwise the outcome is what
    /// `update_resolves` makes of the answer that the repository gave to
    /// the rewrite of the loaded user with the request merged into it: a
    /// key or a name that the request leaves out is written back as it was
    /// loaded.
    pub fn update_by_id(
        &self,
        id: &ID,
        params: &UpdateUserDTO,
    ) -> (updated: Result<User, UserServiceError>)
        ensures
            exists|loaded: Result<User, RepositoryError>|
                {
                    &&& #[trigger] call_ensures(
                        Repo::select_by_id,
                        (&self.repository(), id),
                        loaded,
                    )
                    &&& match loaded {
                        Err(error) => updated matches Err(failure) && failure@
                            == UserServiceErrorView::of_lookup(error@),
                        Ok(stored) => exists|written: User, answer: Result<User, RepositoryError>|
                            {
                                &&& merged_from(stored, params, written)
                                &&& #[trigger] call_ensures(
                                    Repo::update_by_id,
                                    (&self.repository(), &written),
                                    answer,
                                )
                                &&& update_resolves(answer, written.key@, updated)
                            },
                    }
                },
            updated matches Err(failure) ==> {
                ||| failure@ is NotFound
                ||| failure@ is KeyAlreadyExists
                ||| failure@ is Database
            },
            updated matches Err(failure) ==> (params.key matches Some(key) ==> (failure@
                is KeyAlreadyExists ==> failure@ == UserServiceErrorView::KeyAlreadyExists(key@))),
    {
        let mut user = match self.repo.select_by_id(id) {
            Ok(user) => user,
            Err(error) => {
                return Err(UserServiceError::from_lookup(error));
            },
        };
        user.update(params.key.clone(), params.name.clone());
        let answer = self.repo.update_by_id(&user);
        update_outcome(answer, user.key.as_str())
    }
}

} // verus!
