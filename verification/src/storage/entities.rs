//! The rows of the store and their conversion to and from domain objects.
//!
//! Row layout: `users(id, hashed_password, key UNIQUE, name, created_at,
//! updated_at)` and `word_pairs(id, user_id, target_text, source_text,
//! target_language, source_language, created_at)`.

use vstd::prelude::*;
use vstd::std_specs::convert::FromSpecImpl;
use crate::domain::user::{User, UserView};
use crate::domain::word_pair::{WordPair, WordPairView};
use crate::storage::convert::{
    convert_datetime_utc_to_primitive,
    convert_primitive_to_datetime_utc,
    datetime_utc_of,
    primitive_of,
};
use crate::types::{ID, NaiveTimestamp};

verus! {

/// A row of `users`.
#[derive(Debug)]
pub struct UserEntity {
    pub id: ID,
    pub hashed_password: String,
    pub key: String,
    pub name: String,
    pub created_at: NaiveTimestamp,
    pub updated_at: NaiveTimestamp,
}

/// What a `UserEntity` holds, with its texts as sequences of characters.
pub struct UserEntityView {
    pub id: ID,
    pub hashed_password: Seq<char>,
    pub key: Seq<char>,
    pub name: Seq<char>,
    pub created_at: NaiveTimestamp,
    pub updated_at: NaiveTimestamp,
}

impl View for UserEntity {
    type V = UserEntityView;

    open spec fn view(&self) -> UserEntityView {
        UserEntityView {
            id: self.id,
            hashed_password: self.hashed_password@,
            key: self.key@,
            name: self.name@,
            created_at: self.created_at,
            updated_at: self.updated_at,
        }
    }
}

impl Clone for UserEntity {
    fn clone(&self) -> (copy: Self)
        ensures
            copy == *self,
    {
        UserEntity {
            id: self.id,
            hashed_password: self.hashed_password.clone(),
            key: self.key.clone(),
            name: self.name.clone(),
            created_at: self.created_at,
            updated_at: self.updated_at,
        }
    }
}

impl UserView {
    /// The row that stands for this user in the store.
    pub open spec fn to_row(self) -> UserEntityView {
        UserEntityView {
            id: self.id,
            hashed_password: self.hashed_password,
            key: self.key,
            name: self.name,
            created_at: primitive_of(self.created_at),
            updated_at: primitive_of(self.updated_at),
        }
    }
}

impl UserEntityView {
    /// The user that this row stands for.
    pub open spec fn to_domain(self) -> UserView {
        UserView {
            id: self.id,
            hashed_password: self.hashed_password,
            key: self.key,
            name: self.name,
            created_at: datetime_utc_of(self.created_at),
            updated_at: datetime_utc_of(self.updated_at),
        }
    }
}

impl From<&User> for UserEntity {
    fn from(value: &User) -> (row: Self)
        ensures
            row@ == value@.to_row(),
    {
        let created_at = convert_datetime_utc_to_primitive(&value.created_at);
        let updated_at = convert_datetime_utc_to_primitive(&value.updated_at);
        Self {
            id: value.id,
            hashed_password: value.hashed_password.clone(),
            key: value.key.clone(),
            name: value.name.clone(),
            created_at: created_at,
            updated_at: updated_at,
        }
    }
}

impl FromSpecImpl<&User> for UserEntity {
    open spec fn obeys_from_spec() -> bool {
        true
    }

    open spec fn from_spec(value: &User) -> UserEntity {
        UserEntity {
            id: value.id,
            hashed_password: value.hashed_password,
            key: value.key,
            name: value.name,
            created_at: primitive_of(value.created_at),
            updated_at: primitive_of(value.updated_at),
        }
    }
}

impl From<&UserEntity> for User {
    fn from(value: &UserEntity) -> (user: Self)
        ensures
            user@ == value@.to_domain(),
    {
        let created_datetime = convert_primitive_to_datetime_utc(&value.created_at);
        let updated_datetime = convert_primitive_to_datetime_utc(&value.updated_at);
        Self {
            id: value.id,
            hashed_password: value.hashed_password.clone(),
            key: value.key.clone(),
            name: value.name.clone(),
            created_at: created_datetime,
            updated_at: updated_datetime,
        }
    }
}

impl FromSpecImpl<&UserEntity> for User {
    open spec fn obeys_from_spec() -> bool {
        true
    }

    open spec fn from_spec(value: &UserEntity) -> User {
        User {
            id: value.id,
            hashed_password: value.hashed_password,
            key: value.key,
            name: value.name,
            created_at: datetime_utc_of(value.created_at),
            updated_at: datetime_utc_of(value.updated_at),
        }
    }
}

/// A row of `word_pairs`.
#[derive(Debug)]
pub struct WordPairEntity {
    pub id: ID,
    pub user_id: ID,
    pub target_text: String,
    pub source_text: String,
    pub target_language: String,
    pub source_language: String,
    pub created_at: NaiveTimestamp,
}

/// What a `WordPairEntity` holds, with its texts as sequences of characters.
pub struct WordPairEntityView {
    pub id: ID,
    pub user_id: ID,
    pub target_text: Seq<char>,
    pub source_text: Seq<char>,
    pub target_language: Seq<char>,
    pub source_language: Seq<char>,
    pub created_at: NaiveTimestamp,
}

impl View for WordPairEntity {
    type V = WordPairEntityView;

    open spec fn view(&self) -> WordPairEntityView {
        WordPairEntityView {
            id: self.id,
            user_id: self.user_id,
            target_text: self.target_text@,
            source_text: self.source_text@,
            target_language: self.target_language@,
            source_language: self.source_language@,
            created_at: self.created_at,
        }
    }
}

impl Clone for WordPairEntity {
    fn clone(&self) -> (copy: Self)
        ensures
            copy == *self,
    {
        WordPairEntity {
            id: self.id,
            user_id: self.user_id,
            target_text: self.target_text.clone(),
            source_text: self.source_text.clone(),
            target_language: self.target_language.clone(),
            source_language: self.source_language.clone(),
            created_at: self.created_at,
        }
    }
}

impl WordPairView {
    /// The row that stands for this word pair in the store.
    pub open spec fn to_row(self) -> WordPairEntityView {
        WordPairEntityView {
            id: self.id,
            user_id: self.user_id,
            target_text: self.target_text,
            source_text: self.source_text,
            target_language: self.target_language,
            source_language: self.source_language,
            created_at: primitive_of(self.created_at),
        }
    }
}

impl WordPairEntityView {
    /// The word pair that this row stands for.
    pub open spec fn to_domain(self) -> WordPairView {
        WordPairView {
            id: self.id,
            user_id: self.user_id,
            target_text: self.target_text,
            source_text: self.source_text,
            target_language: self.target_language,
            source_language: self.source_language,
            created_at: datetime_utc_of(self.created_at),
        }
    }
}

impl From<&WordPair> for WordPairEntity {
    fn from(value: &WordPair) -> (row: Self)
        ensures
            row@ == value@.to_row(),
    {
        let created_at = convert_datetime_utc_to_primitive(&value.created_at);
        Self {
            id: value.id,
            user_id: value.user_id,
            target_text: value.target_text.clone(),
            source_text: value.source_text.clone(),
            target_language: value.target_language.clone(),
            source_language: value.source_language.clone(),
            created_at: created_at,
        }
    }
}

impl FromSpecImpl<&WordPair> for WordPairEntity {
    open spec fn obeys_from_spec() -> bool {
        true
    }

    open spec fn from_spec(value: &WordPair) -> WordPairEntity {
        WordPairEntity {
            id: value.id,
            user_id: value.user_id,
            target_text: value.target_text,
            source_text: value.source_text,
            target_language: value.target_language,
            source_language: value.source_language,
            created_at: primitive_of(value.created_at),
        }
    }
}

impl From<&WordPairEntity> for WordPair {
    fn from(value: &WordPairEntity) -> (pair: Self)
        ensures
            pair@ == value@.to_domain(),
    {
        let created_datetime = convert_primitive_to_datetime_utc(&value.created_at);
        Self {
            id: value.id,
            user_id: value.user_id,
            target_text: value.target_text.clone(),
            source_text: value.source_text.clone(),
            target_language: value.target_language.clone(),
            source_language: value.source_language.clone(),
            created_at: created_datetime,
        }
    }
}

impl FromSpecImpl<&WordPairEntity> for WordPair {
    open spec fn obeys_from_spec() -> bool {
        true
    }

    open spec fn from_spec(value: &WordPairEntity) -> WordPair {
        WordPair {
            id: value.id,
            user_id: value.user_id,
            target_text: value.target_text,
            source_text: value.source_text,
            target_language: value.target_language,
            source_language: value.source_language,
            created_at: datetime_utc_of(value.created_at),
        }
    }
}

/// A user that is stored and read back comes out as it went in, in every
/// field and to the nanosecond of its stamps.
pub proof fn lemma_user_round_trip(user: UserView)
    ensures
        user.to_row().to_domain() == user,
{
}

/// A row of `users` that is read and stored again comes out as it went in.
pub proof fn lemma_user_row_round_trip(row: UserEntityView)
    ensures
        row.to_domain().to_row() == row,
{
}

/// Two users stand for the same row only if they are the same user.
pub proof fn lemma_user_rows_tell_users_apart(first: UserView, second: UserView)
    requires
        first.to_row() == second.to_row(),
    ensures
        first == second,
{
    lemma_user_round_trip(first);
    lemma_user_round_trip(second);
}

/// The store keeps the normal form of a user's name.
pub proof fn lemma_user_round_trip_keeps_normal_form(user: UserView)
    requires
        user.is_normalised(),
    ensures
        user.to_row().to_domain().is_normalised(),
{
}

/// A word pair that is stored and read back comes out as it went in, in
/// every field and to the nanosecond of its stamp.
pub proof fn lemma_word_pair_round_trip(pair: WordPairView)
    ensures
        pair.to_row().to_domain() == pair,
{
}

/// A row of `word_pairs` that is read and stored again comes out as it went
/// in.
pub proof fn lemma_word_pair_row_round_trip(row: WordPairEntityView)
    ensures
        row.to_domain().to_row() == row,
{
}

/// Two word pairs stand for the same row only if they are the same word
/// pair.
pub proof fn lemma_word_pair_rows_tell_pairs_apart(first: WordPairView, second: WordPairView)
    requires
        first.to_row() == second.to_row(),
    ensures
        first == second,
{
    lemma_word_pair_round_trip(first);
    lemma_word_pair_round_trip(second);
}

/// The store keeps the normal form of a word pair's texts and codes.
pub proof fn lemma_word_pair_round_trip_keeps_normal_form(pair: WordPairView)
    requires
        pair.is_normalised(),
    ensures
        pair.to_row().to_domain().is_normalised(),
{
}

} // verus!
