//! The storage interface, generic over the domain item it persists and the
//! row that stands for the item in the store.

use vstd::prelude::*;
use crate::domain::user::User;
use crate::domain::word_pair::WordPair;
use crate::storage::entities::{UserEntity, WordPairEntity};
use crate::types::ID;

verus! {

/// How a repository operation fails. Each kind carries the store's message.
#[derive(Debug)]
pub enum RepositoryError {
    /// A uniqueness constraint of the store was violated.
    Conflict(String),
    /// No row matched a lookup, update or deletion of a single row.
    NotFound(String),
    /// Any other failure of the store.
    StorageFailure(String),
}

/// What a `RepositoryError` holds, with its message as a sequence of
/// characters.
pub enum RepositoryErrorView {
    Conflict(Seq<char>),
    NotFound(Seq<char>),
    StorageFailure(Seq<char>),
}

impl View for RepositoryError {
    type V = RepositoryErrorView;

    open spec fn view(&self) -> RepositoryErrorView {
        match *self {
            RepositoryError::Conflict(message) => RepositoryErrorView::Conflict(message@),
            RepositoryError::NotFound(message) => RepositoryErrorView::NotFound(message@),
            RepositoryError::StorageFailure(message) => RepositoryErrorView::StorageFailure(
                message@,
            ),
        }
    }
}

impl RepositoryErrorView {
    /// The store's message.
    pub open spec fn text(self) -> Seq<char> {
        match self {
            RepositoryErrorView::Conflict(message) => message,
            RepositoryErrorView::NotFound(message) => message,
            RepositoryErrorView::StorageFailure(message) => message,
        }
    }
}

impl RepositoryError {
    /// The store's message.
    pub fn message(&self) -> (message: String)
        ensures
            message@ == self@.text(),
    {
        match self {
            RepositoryError::Conflict(message) => message.clone(),
            RepositoryError::NotFound(message) => message.clone(),
            RepositoryError::StorageFailure(message) => message.clone(),
        }
    }
}

/// Storage of one kind of domain item.
pub trait Repository: Send + Sync + Sized {
    /// The handle to the store.
    type Pool: Send + Sync;

    /// The domain item.
    type Item: Send + Sync;

    /// The row that stands for an item in the store.
    type Entity;

    type Error: Send + Sync;

    fn new(db: Self::Pool) -> Self;

    /// Persists a new row made from `item` and returns the item as re-read
    /// from the store.
    fn insert(&self, item: &Self::Item) -> Result<Self::Item, Self::Error>;

    /// The item stored under `id`.
    fn select_by_id(&self, id: &ID) -> Result<Self::Item, Self::Error>;

    /// Deletes the row stored under `id`.
    fn delete_by_id(&self, id: &ID) -> Result<(), Self::Error>;
}

/// Storage of users.
pub trait IUserRepository: Repository<Item = User, Entity = UserEntity> {
    /// The user stored under the handle `key`.
    fn select_by_key(&self, key: &str) -> Result<Self::Item, Self::Error>;

    /// Writes every field of `updated_user` over the row with its
    /// identifier and returns the user as re-read from the store.
    fn update_by_id(&self, updated_user: &Self::Item) -> Result<Self::Item, Self::Error>;
}

/// Storage of word pairs.
pub trait IWordPairRepository: Repository<Item = WordPair, Entity = WordPairEntity> {
    /// The word pairs that `user_id` owns; none is no failure.
    fn select_by_user_id(&self, user_id: &ID) -> Result<Vec<Self::Item>, Self::Error>;
}

} // verus!
