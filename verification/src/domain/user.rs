//! The user account.

use vstd::prelude::*;
use crate::clock::now;
use crate::identity::fresh_id;
use crate::text::{normalize_text, optional_text, title_case};
use crate::types::{ID, Timestamp, is_nil, is_random_uuid};

verus! {

/// A user account. `name` is held in title case; `created_at` is fixed at
/// construction and `updated_at` moves with every update.
#[derive(Debug)]
pub struct User {
    pub id: ID,
    pub hashed_password: String,
    pub key: String,
    pub name: String,
    pub created_at: Timestamp,
    pub updated_at: Timestamp,
}

/// What a `User` holds, with its texts as sequences of characters.
pub struct UserView {
    pub id: ID,
    pub hashed_password: Seq<char>,
    pub key: Seq<char>,
    pub name: Seq<char>,
    pub created_at: Timestamp,
    pub updated_at: Timestamp,
}

impl View for User {
    type V = UserView;

    open spec fn view(&self) -> UserView {
        UserView {
            id: self.id,
            hashed_password: self.hashed_password@,
            key: self.key@,
            name: self.name@,
            created_at: self.created_at,
            updated_at: self.updated_at,
        }
    }
}

impl Clone for User {
    fn clone(&self) -> (copy: Self)
        ensures
            copy == *self,
    {
        User {
            id: self.id,
            hashed_password: self.hashed_password.clone(),
            key: self.key.clone(),
            name: self.name.clone(),
            created_at: self.created_at,
            updated_at: self.updated_at,
        }
    }
}

impl UserView {
    /// The name is in normal form: it is the title case of some text.
    pub open spec fn is_normalised(self) -> bool {
        exists|raw: Seq<char>| self.name == #[trigger] title_case(raw)
    }

    /// The user that construction yields from its parts: every part as
    /// given, but the name, which is put in title case.
    pub open spec fn built(
        id: ID,
        key: Seq<char>,
        name: Seq<char>,
        hashed_password: Seq<char>,
        created_at: Timestamp,
        updated_at: Timestamp,
    ) -> UserView {
        UserView { id, hashed_password, key, name: title_case(name), created_at, updated_at }
    }

    /// The user after an update at the instant `at`: a key or a name that is
    /// present replaces the old one, the name in title case; one that is
    /// absent leaves the old one; `updated_at` becomes `at`; the rest stays.
    pub open spec fn merged(
        self,
        key: Option<Seq<char>>,
        name: Option<Seq<char>>,
        at: Timestamp,
    ) -> UserView {
        UserView {
            id: self.id,
            hashed_password: self.hashed_password,
            key: match key {
                Some(k) => k,
                None => self.key,
            },
            name: match name {
                Some(n) => title_case(n),
                None => self.name,
            },
            created_at: self.created_at,
            updated_at: at,
        }
    }
}

impl User {
    /// A user made of the given parts, with the name put in title case.
    /// Nothing is drawn from the clock or from the random generator.
    pub fn build(
        id: ID,
        key: String,
        name: String,
        hashed_password: String,
        created_at: Timestamp,
        updated_at: Timestamp,
    ) -> (user: Self)
        ensures
            user@ == UserView::built(id, key@, name@, hashed_password@, created_at, updated_at),
            user@.is_normalised(),
    {
        let name = normalize_text(name.as_str());
        Self { id, hashed_password, key, name, created_at, updated_at }
    }

    /// A new user with a fresh identifier. A timestamp that is absent is
    /// read from the clock.
    pub fn new(
        key: String,
        name: String,
        hashed_password: String,
        created_at: Option<Timestamp>,
        updated_at: Option<Timestamp>,
    ) -> (user: Self)
        ensures
            is_random_uuid(user.id),
            !is_nil(user.id),
            user@ == UserView::built(
                user.id,
                key@,
                name@,
                hashed_password@,
                user.created_at,
                user.updated_at,
            ),
            user@.is_normalised(),
            created_at matches Some(at) ==> user.created_at == at,
            created_at is None ==> user.created_at.is_valid(),
            updated_at matches Some(at) ==> user.updated_at == at,
            updated_at is None ==> user.updated_at.is_valid(),
    {
        let id = fresh_id();
        let created_time = match created_at {
            None => now(),
            Some(time) => time,
        };
        let updated_time = match updated_at {
            None => now(),
            Some(time) => time,
        };
        Self::build(id, key, name, hashed_password, created_time, updated_time)
    }

    /// A new user with a fresh identifier and both timestamps read from the
    /// clock.
    pub fn new_simple(key: String, name: String, hashed_password: String) -> (user: Self)
        ensures
            is_random_uuid(user.id),
            !is_nil(user.id),
            user@ == UserView::built(
                user.id,
                key@,
                name@,
                hashed_password@,
                user.created_at,
                user.updated_at,
            ),
            user@.is_normalised(),
            user.created_at.is_valid(),
            user.updated_at.is_valid(),
    {
        let id = fresh_id();
        let created_time = now();
        let updated_time = now();
        Self::build(id, key, name, hashed_password, created_time, updated_time)
    }

    /// Merges an update made at the instant `at` into the user.
    pub fn apply_update(&mut self, key: Option<String>, name: Option<String>, at: Timestamp)
        ensures
            final(self)@ == old(self)@.merged(optional_text(key), optional_text(name), at),
            old(self)@.is_normalised() ==> final(self)@.is_normalised(),
    {
        if let Some(key) = key {
            self.key = key;
        }
        if let Some(name) = name {
            self.name = normalize_text(name.as_str());
        }
        self.updated_at = at;
    }

    /// Merges an update into the user and stamps it with the reading of the
    /// clock.
    pub fn update(&mut self, key: Option<String>, name: Option<String>) -> (updated: &mut Self)
        ensures
            updated@ == old(self)@.merged(
                optional_text(key),
                optional_text(name),
                updated.updated_at,
            ),
            updated.updated_at.is_valid(),
            old(self)@.is_normalised() ==> updated@.is_normalised(),
            *final(self) == *final(updated),
    {
        let at = now();
        self.apply_update(key, name, at);
        self
    }
}

/// An update that carries only a key changes the key and the update stamp
/// and nothing else; where the clock reads later than the stored stamp, the
/// stamp moves strictly forward.
pub proof fn lemma_update_of_key_alone(user: UserView, key: Seq<char>, at: Timestamp)
    requires
        user.updated_at.precedes(at),
    ensures
        user.merged(Some(key), None, at) == (UserView { key: key, updated_at: at, ..user }),
        user.merged(Some(key), None, at).name == user.name,
        user.updated_at.precedes(user.merged(Some(key), None, at).updated_at),
{
}

/// An update keeps the name in normal form.
pub proof fn lemma_update_keeps_normal_form(
    user: UserView,
    key: Option<Seq<char>>,
    name: Option<Seq<char>>,
    at: Timestamp,
)
    requires
        user.is_normalised(),
    ensures
        user.merged(key, name, at).is_normalised(),
{
    if let Some(raw) = name {
        assert(user.merged(key, name, at).name == title_case(raw));
    }
}

/// An update never touches the identifier, the password hash or the
/// creation stamp, and an absent field leaves the stored one as it was.
pub proof fn lemma_update_keeps_the_rest(
    user: UserView,
    key: Option<Seq<char>>,
    name: Option<Seq<char>>,
    at: Timestamp,
)
    ensures
        user.merged(key, name, at).id == user.id,
        user.merged(key, name, at).hashed_password == user.hashed_password,
        user.merged(key, name, at).created_at == user.created_at,
        key is None ==> user.merged(key, name, at).key == user.key,
        name is None ==> user.merged(key, name, at).name == user.name,
        user.merged(key, name, at).updated_at == at,
{
}

} // verus!
