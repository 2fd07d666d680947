//! The word pair service.

use vstd::prelude::*;
use vstd::string::*;
use crate::api::word_pair::CreateWordPairDTO;
use crate::domain::word_pair::{WordPair, WordPairView};
use crate::storage::entities::WordPairEntity;
use crate::traits::repository::{
    IWordPairRepository,
    Repository,
    RepositoryError,
    RepositoryErrorView,
};
use crate::types::{ID, is_random_uuid};

verus! {

/// How an operation on word pairs fails.
#[derive(Debug)]
pub enum WordPairServiceError {
    /// Kept for a uniqueness constraint on word pairs. The store enforces
    /// none, so this crate never produces it.
    WordPairAlreadyExists(String),
    /// No word pair matched. It carries the store's message.
    NotFound(String),
    /// Any other failure of the store. It carries the store's message.
    Database(String),
    /// Never produced by this crate.
    Unknown,
}

/// What a `WordPairServiceError` holds, with its text as a sequence of
/// characters.
pub enum WordPairServiceErrorView {
    WordPairAlreadyExists(Seq<char>),
    NotFound(Seq<char>),
    Database(Seq<char>),
    Unknown,
}

impl View for WordPairServiceError {
    type V = WordPairServiceErrorView;

    open spec fn view(&self) -> WordPairServiceErrorView {
        match *self {
            WordPairServiceError::WordPairAlreadyExists(pair) =>
                WordPairServiceErrorView::WordPairAlreadyExists(pair@),
            WordPairServiceError::NotFound(message) => WordPairServiceErrorView::NotFound(message@),
            WordPairServiceError::Database(message) => WordPairServiceErrorView::Database(message@),
            WordPairServiceError::Unknown => WordPairServiceErrorView::Unknown,
        }
    }
}

impl WordPairServiceErrorView {
    /// The failure of a lookup or a deletion: a missing row is `NotFound`,
    /// every other failure of the store is `Database`.
    pub open spec fn of_lookup(error: RepositoryErrorView) -> WordPairServiceErrorView {
        match error {
            RepositoryErrorView::NotFound(message) => WordPairServiceErrorView::NotFound(message),
            RepositoryErrorView::Conflict(message) => WordPairServiceErrorView::Database(message),
            RepositoryErrorView::StorageFailure(message) => WordPairServiceErrorView::Database(
                message,
            ),
        }
    }

    /// The failure of an insertion: every failure of the store is
    /// `Database`.
    pub open spec fn of_insert(error: RepositoryErrorView) -> WordPairServiceErrorView {
        WordPairServiceErrorView::Database(error.text())
    }

    /// The text under which the failure is reported.
    pub open spec fn text(self) -> Seq<char> {
        match self {
            WordPairServiceErrorView::WordPairAlreadyExists(pair) =>
                "This word pair already exists: "@ + pair,
            WordPairServiceErrorView::NotFound(message) => "Word pair not found: `"@ + message
                + "`"@,
            WordPairServiceErrorView::Database(message) => "Database error: `"@ + message + "`"@,
            WordPairServiceErrorView::Unknown => "Unknown error"@,
        }
    }
}

impl WordPairServiceError {
    /// Classifies the failure of a lookup or a deletion.
    pub fn from_lookup(error: RepositoryError) -> (classified: Self)
        ensures
            classified@ == WordPairServiceErrorView::of_lookup(error@),
    {
        match error {
            RepositoryError::NotFound(message) => WordPairServiceError::NotFound(message),
            RepositoryError::Conflict(message) => WordPairServiceError::Database(message),
            RepositoryError::StorageFailure(message) => WordPairServiceError::Database(message),
        }
    }

    /// Classifies the failure of an insertion.
    pub fn from_insert(error: RepositoryError) -> (classified: Self)
        ensures
            classified@ == WordPairServiceErrorView::of_insert(error@),
    {
        match error {
            RepositoryError::NotFound(message) => WordPairServiceError::Database(message),
            RepositoryError::Conflict(message) => WordPairServiceError::Database(message),
            RepositoryError::StorageFailure(message) => WordPairServiceError::Database(message),
        }
    }

    /// The text under which the failure is reported.
    pub fn message(&self) -> (message: String)
        ensures
            message@ == self@.text(),
    {
        match self {
            WordPairServiceError::WordPairAlreadyExists(pair) => String::from_str(
                "This word pair already exists: ",
            ).concat(pair.as_str()),
            WordPairServiceError::NotFound(message) => String::from_str(
                "Word pair not found: `",
            ).concat(message.as_str()).concat("`"),
            WordPairServiceError::Database(message) => String::from_str(
                "Database error: `",
            ).concat(message.as_str()).concat("`"),
            WordPairServiceError::Unknown => String::from_str("Unknown error"),
        }
    }
}

/// Whether `outcome` is what the repository's answer to the insertion of a
/// word pair comes to: the word pair as the store holds it, or `Database`.
pub open spec fn creation_resolves(
    answer: Result<WordPair, RepositoryError>,
    outcome: Result<WordPair, WordPairServiceError>,
) -> bool {
    match answer {
        Ok(pair) => outcome == Ok::<WordPair, WordPairServiceError>(pair),
        Err(error) => outcome matches Err(failure) && failure@
            == WordPairServiceErrorView::of_insert(error@),
    }
}

/// Whether `outcome` is what the repository's answer to a lookup comes to:
/// the word pair it found, or the failure classified as a lookup's.
pub open spec fn lookup_resolves(
    answer: Result<WordPair, RepositoryError>,
    outcome: Result<WordPair, WordPairServiceError>,
) -> bool {
    match answer {
        Ok(pair) => outcome == Ok::<WordPair, WordPairServiceError>(pair),
        Err(error) => outcome matches Err(failure) && failure@
            == WordPairServiceErrorView::of_lookup(error@),
    }
}

/// Whether `outcome` is what the repository's answer to a deletion comes
/// to: success, or the failure classified as a lookup's.
pub open spec fn deletion_resolves(
    answer: Result<(), RepositoryError>,
    outcome: Result<(), WordPairServiceError>,
) -> bool {
    match answer {
        Ok(_) => outcome is Ok,
        Err(error) => outcome matches Err(failure) && failure@
            == WordPairServiceErrorView::of_lookup(error@),
    }
}

/// Whether `outcome` is what the repository's answer to a listing comes
/// to: the word pairs it found, in its order, or the failure classified as
/// a lookup's. An empty listing is a success.
pub open spec fn listing_resolves(
    answer: Result<Vec<WordPair>, RepositoryError>,
    outcome: Result<Vec<WordPair>, WordPairServiceError>,
) -> bool {
    match answer {
        Ok(pairs) => outcome == Ok::<Vec<WordPair>, WordPairServiceError>(pairs),
        Err(error) => outcome matches Err(failure) && failure@
            == WordPairServiceErrorView::of_lookup(error@),
    }
}

/// What the creation of a word pair comes to, from what the repository
/// answered to the insertion.
pub fn creation_outcome(
    answer: Result<WordPair, RepositoryError>,
) -> (outcome: Result<WordPair, WordPairServiceError>)
    ensures
        creation_resolves(answer, outcome),
{
    match answer {
        Ok(pair) => Ok(pair),
        Err(error) => Err(WordPairServiceError::from_insert(error)),
    }
}

/// What the lookup of a word pair comes to, from what the repository
/// answered.
pub fn lookup_outcome(
    answer: Result<WordPair, RepositoryError>,
) -> (outcome: Result<WordPair, WordPairServiceError>)
    ensures
        lookup_resolves(answer, outcome),
{
    match answer {
        Ok(pair) => Ok(pair),
        Err(error) => Err(WordPairServiceError::from_lookup(error)),
    }
}

/// What the deletion of a word pair comes to, from what the repository
/// answered.
pub fn deletion_outcome(
    answer: Result<(), RepositoryError>,
) -> (outcome: Result<(), WordPairServiceError>)
    ensures
        deletion_resolves(answer, outcome),
{
    match answer {
        Ok(_) => Ok(()),
        Err(error) => Err(WordPairServiceError::from_lookup(error)),
    }
}

/// What the listing of a user's word pairs comes to, from what the
/// repository answered.
pub fn listing_outcome(
    answer: Result<Vec<WordPair>, RepositoryError>,
) -> (outcome: Result<Vec<WordPair>, WordPairServiceError>)
    ensures
        listing_resolves(answer, outcome),
{
    match answer {
        Ok(pairs) => Ok(pairs),
        Err(error) => Err(WordPairServiceError::from_lookup(error)),
    }
}

/// Every failure of the store is classified as `NotFound` or `Database`,
/// never as `Unknown` or `WordPairAlreadyExists`, and keeps the store's
/// message. A listing that the store answers with no word pairs is a
/// success with no word pairs.
pub proof fn lemma_store_failures_are_classified(error: RepositoryErrorView)
    ensures
        WordPairServiceErrorView::of_lookup(error) == (if error is NotFound {
            WordPairServiceErrorView::NotFound(error.text())
        } else {
            WordPairServiceErrorView::Database(error.text())
        }),
        WordPairServiceErrorView::of_insert(error) == WordPairServiceErrorView::Database(
            error.text(),
        ),
{
}

/// Whether `pair` is a word pair that the request `params` of the user
/// `user_id` is made into for insertion: its owner is that user, its texts
/// are those of the request in title case, its language codes are those of
/// the request in lower case, its identifier has the shape of a random
/// UUID, and its stamp is valid.
pub open spec fn made_from(user_id: ID, params: &CreateWordPairDTO, pair: WordPair) -> bool {
    &&& pair@ == WordPairView::built(
        pair.id,
        user_id,
        params.target_text@,
        params.source_text@,
        params.target_language@,
        params.source_language@,
        pair.created_at,
    )
    &&& is_random_uuid(pair.id)
    &&& pair.created_at.is_valid()
}

/// Operations on word pairs over a repository.
pub struct WordPairService<Repo> {
    repo: Repo,
}

impl<Repo: Clone> Clone for WordPairService<Repo> {
    fn clone(&self) -> Self {
        Self { repo: self.repo.clone() }
    }
}

impl<Repo> WordPairService<Repo> {
    /// The repository that the service works on.
    pub closed spec fn repository(&self) -> Repo {
        self.repo
    }
}

impl<Repo> WordPairService<Repo> where
    Repo: Repository<Item = WordPair, Entity = WordPairEntity, Error = RepositoryError>,
 {
    pub fn new(repo: Repo) -> (service: Self)
        ensures
            service.repository() == repo,
    {
        Self { repo: repo }
    }

    /// Creates a word pair of the user `user_id`: makes it under a fresh
    /// identifier with its texts in title case, its language codes in
    /// lower case and its stamp read from the clock, and inserts it.
    ///
    /// The outcome is what `creation_resolves` makes of the answer that
    /// the repository gave to the insertion of a word pair made from the
    /// request: on success the word pair as the store holds it, on any
    /// failure of the store `Database`.
    pub fn create(
        &self,
        user_id: &ID,
        params: &CreateWordPairDTO,
    ) -> (created: Result<WordPair, WordPairServiceError>)
        ensures
            exists|pair: WordPair, answer: Result<WordPair, RepositoryError>|
                {
                    &&& made_from(*user_id, params, pair)
                    &&& #[trigger] call_ensures(Repo::insert, (&self.repository(), &pair), answer)
                    &&& creation_resolves(answer, created)
                },
            created matches Err(failure) ==> failure@ is Database,
    {
        let word_pair = WordPair::new(
            user_id,
            params.target_text.as_str(),
            params.source_text.as_str(),
            params.target_language.as_str(),
            params.source_language.as_str(),
        );
        let answer = self.repo.insert(&word_pair);
        assert(call_ensures(Repo::insert, (&self.repository(), &word_pair), answer));
        creation_outcome(answer)
    }

    /// The word pair stored under `id`: what `lookup_resolves` makes of the
    /// answer that the repository gave to `select_by_id(id)`. A missing row
    /// is `NotFound`, every other failure of the store is `Database`.
    pub fn get_by_id(&self, id: &ID) -> (found: Result<WordPair, WordPairServiceError>)
        ensures
            exists|answer: Result<WordPair, RepositoryError>|
                {
                    &&& #[trigger] call_ensures(
                        Repo::select_by_id,
                        (&self.repository(), id),
                        answer,
                    )
                    &&& lookup_resolves(answer, found)
                },
            found matches Err(failure) ==> failure@ is NotFound || failure@ is Database,
    {
        let answer = self.repo.select_by_id(id);
        lookup_outcome(answer)
    }

    /// Deletes the word pair stored under `id`: what `deletion_resolves`
    /// makes of the answer that the repository gave to `delete_by_id(id)`.
    /// A missing row is `NotFound`, every other failure of the store is
    /// `Database`.
    pub fn delete_by_id(&self, id: &ID) -> (deleted: Result<(), WordPairServiceError>)
        ensures
            exists|answer: Result<(), RepositoryError>|
                {
                    &&& #[trigger] call_ensures(
                        Repo::delete_by_id,
                        (&self.repository(), id),
                        answer,
                    )
                    &&& deletion_resolves(answer, deleted)
                },
            deleted matches Err(failure) ==> failure@ is NotFound || failure@ is Database,
    {
        let answer = self.repo.delete_by_id(id);
        deletion_outcome(answer)
    }
}

impl<Repo> WordPairService<Repo> where Repo: IWordPairRepository<Error = RepositoryError> {
    /// The word pairs that the user `user_id` owns: what `listing_resolves`
    /// makes of the answer that the repository gave to
    /// `select_by_user_id(user_id)`. A listing that the repository answers
    /// with no word pairs comes back as an empty listing, which is a
    /// success.
    pub fn get_by_user_id(
        &self,
        user_id: &ID,
    ) -> (listed: Result<Vec<WordPair>, WordPairServiceError>)
        ensures
            exists|answer: Result<Vec<WordPair>, RepositoryError>|
                {
                    &&& #[trigger] call_ensures(
                        Repo::select_by_user_id,
                        (&self.repository(), user_id),
                        answer,
                    )
                    &&& listing_resolves(answer, listed)
                },
            listed matches Err(failure) ==> failure@ is NotFound || failure@ is Database,
    {
        let answer = self.repo.select_by_user_id(user_id);
        listing_outcome(answer)
    }
}

} // verus!
