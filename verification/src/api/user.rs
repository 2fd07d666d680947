//! Request and response objects for users.

use vstd::prelude::*;
use vstd::std_specs::convert::FromSpecImpl;
use crate::api::validation::{
    InvalidField,
    check_optional_length,
    checked,
    length_within,
    optional_length_within,
    validate_length,
};
use crate::domain::user::User;
use crate::text::optional_text;
use crate::types::ID;

verus! {

/// Fewest characters of a user's key.
pub const KEY_MIN: u64 = 3;

/// Most characters of a user's key.
pub const KEY_MAX: u64 = 30;

/// Fewest characters of a user's name.
pub const NAME_MIN: u64 = 2;

/// Most characters of a user's name.
pub const NAME_MAX: u64 = 20;

/// A user as the transport layer shows it: without the password hash and
/// the stamps.
#[derive(Debug)]
pub struct UserDTO {
    pub id: ID,
    pub key: String,
    pub name: String,
}

impl Clone for UserDTO {
    fn clone(&self) -> (copy: Self)
        ensures
            copy == *self,
    {
        UserDTO { id: self.id, key: self.key.clone(), name: self.name.clone() }
    }
}

impl UserDTO {
    /// What the transport layer shows of a user: the identifier, the key
    /// and the name.
    pub open spec fn of_user(value: User) -> UserDTO {
        UserDTO { id: value.id, key: value.key, name: value.name }
    }
}

impl From<User> for UserDTO {
    fn from(value: User) -> (shown: Self)
        ensures
            shown == UserDTO::of_user(value),
    {
        Self { id: value.id, key: value.key, name: value.name }
    }
}

impl FromSpecImpl<User> for UserDTO {
    open spec fn obeys_from_spec() -> bool {
        true
    }

    open spec fn from_spec(value: User) -> UserDTO {
        UserDTO::of_user(value)
    }
}

/// The request to create a user.
#[derive(Debug)]
pub struct CreateUserDTO {
    pub key: String,
    pub name: String,
    pub password: String,
}

impl Clone for CreateUserDTO {
    fn clone(&self) -> (copy: Self)
        ensures
            copy == *self,
    {
        CreateUserDTO {
            key: self.key.clone(),
            name: self.name.clone(),
            password: self.password.clone(),
        }
    }
}

impl CreateUserDTO {
    /// The key has 3 to 30 characters.
    pub open spec fn key_in_bounds(&self) -> bool {
        length_within(self.key@.len(), KEY_MIN, KEY_MAX)
    }

    /// The name has 2 to 20 characters.
    pub open spec fn name_in_bounds(&self) -> bool {
        length_within(self.name@.len(), NAME_MIN, NAME_MAX)
    }

    /// Both the key and the name are in bounds.
    pub open spec fn is_valid(&self) -> bool {
        self.key_in_bounds() && self.name_in_bounds()
    }

    /// The first field that is out of bounds, the key before the name.
    pub open spec fn first_invalid(&self) -> Option<InvalidField> {
        if !self.key_in_bounds() {
            Some(InvalidField::Key)
        } else if !self.name_in_bounds() {
            Some(InvalidField::Name)
        } else {
            None
        }
    }

    /// Checks the bounds of the request and names the first field that is
    /// out of bounds.
    pub fn validate(&self) -> (outcome: Result<(), InvalidField>)
        ensures
            outcome == checked(self.first_invalid()),
            outcome is Ok <==> self.is_valid(),
    {
        if !validate_length(self.key.as_str(), KEY_MIN, KEY_MAX) {
            Err(InvalidField::Key)
        } else if !validate_length(self.name.as_str(), NAME_MIN, NAME_MAX) {
            Err(InvalidField::Name)
        } else {
            Ok(())
        }
    }
}

/// The request to update a user. A field that is absent is left as it is.
#[derive(Debug)]
pub struct UpdateUserDTO {
    pub key: Option<String>,
    pub name: Option<String>,
}

impl Clone for UpdateUserDTO {
    fn clone(&self) -> (copy: Self)
        ensures
            copy == *self,
    {
        UpdateUserDTO { key: self.key.clone(), name: self.name.clone() }
    }
}

impl UpdateUserDTO {
    /// The key, where present, has 3 to 30 characters.
    pub open spec fn key_in_bounds(&self) -> bool {
        optional_length_within(optional_text(self.key), KEY_MIN, KEY_MAX)
    }

    /// The name, where present, has 2 to 20 characters.
    pub open spec fn name_in_bounds(&self) -> bool {
        optional_length_within(optional_text(self.name), NAME_MIN, NAME_MAX)
    }

    /// Every field that is present is in bounds.
    pub open spec fn is_valid(&self) -> bool {
        self.key_in_bounds() && self.name_in_bounds()
    }

    /// The first field that is present and out of bounds, the key before
    /// the name.
    pub open spec fn first_invalid(&self) -> Option<InvalidField> {
        if !self.key_in_bounds() {
            Some(InvalidField::Key)
        } else if !self.name_in_bounds() {
            Some(InvalidField::Name)
        } else {
            None
        }
    }

    /// Checks the bounds of the request and names the first field that is
    /// present and out of bounds.
    pub fn validate(&self) -> (outcome: Result<(), InvalidField>)
        ensures
            outcome == checked(self.first_invalid()),
            outcome is Ok <==> self.is_valid(),
    {
        if !check_optional_length(&self.key, KEY_MIN, KEY_MAX) {
            Err(InvalidField::Key)
        } else if !check_optional_length(&self.name, NAME_MIN, NAME_MAX) {
            Err(InvalidField::Name)
        } else {
            Ok(())
        }
    }
}

} // verus!
