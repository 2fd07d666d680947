//! Credential hashing with Argon2.
//!
//! A hash is a PHC string that carries the algorithm, its parameters and
//! the salt, so a stored hash is checked under the salt and parameters it
//! was made with. Every hash is made under a fresh random salt: two hashes
//! of one secret differ, and callers compare secrets only through `verify`.

use vstd::prelude::*;
use vstd::string::*;
use argon2::password_hash::Error as PasswordHashError;
use crate::traits::crypto::ICrypto;

verus! {

/// The error type of the hashing library, `password_hash::Error`. Its
/// contents are unknown to the verifier.
#[verifier::external_type_specification]
#[verifier::external_body]
pub struct ExPasswordHashError(argon2::password_hash::Error);

/// Whether `hashed` parses as a PHC hash string, as
/// `password_hash::PasswordHash::new` decides.
pub uninterp spec fn phc_well_formed(hashed: Seq<char>) -> bool;

/// Whether Argon2, under the algorithm, parameters and salt that the PHC
/// string `hashed` carries, computes from `password` the output that
/// `hashed` carries, as `PasswordVerifier::verify_password` decides for
/// `Argon2::default()` and the parsed string.
pub uninterp spec fn argon2_accepts(password: Seq<char>, hashed: Seq<char>) -> bool;

/// How the hashing capability fails.
#[derive(Debug)]
pub enum CryptoError {
    /// The secret is not the one that the stored hash was made from.
    Mismatch,
    /// The stored hash cannot be checked: it is malformed, or it names an
    /// algorithm, a version or parameters that Argon2 refuses. It carries
    /// the reason.
    InvalidHash(String),
    /// Hashing could not complete. It carries the reason.
    HashingFailed(String),
}

/// The text under which a mismatch is reported.
pub const MISMATCH_TEXT: &'static str = "invalid password";

impl CryptoError {
    /// The reason as text.
    pub open spec fn text(self) -> Seq<char> {
        match self {
            CryptoError::Mismatch => MISMATCH_TEXT@,
            CryptoError::InvalidHash(reason) => reason@,
            CryptoError::HashingFailed(reason) => reason@,
        }
    }

    /// The reason as text.
    pub fn message(&self) -> (message: String)
        ensures
            message@ == self.text(),
    {
        match self {
            CryptoError::Mismatch => String::from_str(MISMATCH_TEXT),
            CryptoError::InvalidHash(reason) => reason.clone(),
            CryptoError::HashingFailed(reason) => reason.clone(),
        }
    }

    /// The failure that a refused check comes to: a mismatch where the
    /// library reported the password as wrong, and an invalid hash, with
    /// the library's reason, for every other refusal.
    pub fn of_refusal(password_is_wrong: bool, reason: String) -> (error: CryptoError)
        ensures
            password_is_wrong ==> error == CryptoError::Mismatch,
            !password_is_wrong ==> error == CryptoError::InvalidHash(reason),
    {
        if password_is_wrong {
            CryptoError::Mismatch
        } else {
            CryptoError::InvalidHash(reason)
        }
    }
}

/// Draws a salt with `SaltString::generate` from the operating system's
/// generator, hashes with `Argon2::default().hash_password` and renders
/// the PHC string. The salt is random, so the string differs from call to
/// call. What holds of every string that comes back is what the library
/// documents of its own output: it parses, and the password it was made
/// from verifies against it.
#[verifier::external_body]
fn argon2_hash(password: &str) -> (hashed: Result<String, PasswordHashError>)
    ensures
        hashed matches Ok(phc) ==> phc_well_formed(phc@) && argon2_accepts(password@, phc@),
{
    let salt = argon2::password_hash::SaltString::generate(
        &mut argon2::password_hash::rand_core::OsRng,
    );
    let hash = argon2::PasswordHasher::hash_password(
        &argon2::Argon2::default(),
        password.as_bytes(),
        &salt,
    )?;
    Ok(hash.to_string())
}

/// Parses `hashed` with `PasswordHash::new` and hands back the text of the
/// parse error, if there is one.
#[verifier::external_body]
fn phc_parse_error(hashed: &str) -> (refusal: Option<String>)
    ensures
        refusal is None <==> phc_well_formed(hashed@),
{
    argon2::password_hash::PasswordHash::new(hashed).err().map(|error| error.to_string())
}

/// Parses `hashed` with `PasswordHash::new` and checks `password` against
/// it with `Argon2::default().verify_password`. A string that does not
/// parse is refused with the parse error.
#[verifier::external_body]
fn argon2_verify(password: &str, hashed: &str) -> (checked: Result<(), PasswordHashError>)
    ensures
        checked is Ok <==> (phc_well_formed(hashed@) && argon2_accepts(password@, hashed@)),
{
    let parsed = argon2::password_hash::PasswordHash::new(hashed)?;
    argon2::PasswordVerifier::verify_password(
        &argon2::Argon2::default(),
        password.as_bytes(),
        &parsed,
    )
}

/// Whether a `password_hash::Error` is the variant `Password`, by which
/// the library reports a password that does not match.
#[verifier::external_body]
fn is_password_variant(error: &PasswordHashError) -> bool {
    matches!(error, argon2::password_hash::Error::Password)
}

/// The `Display` text of a `password_hash::Error`.
#[verifier::external_body]
fn password_hash_error_text(error: &PasswordHashError) -> String {
    error.to_string()
}

/// The hashing capability backed by Argon2 with its default parameters.
/// It holds no state.
pub struct Argon2Crypto;

impl ICrypto for Argon2Crypto {
    type Error = CryptoError;

    /// Hashes `password` under a fresh random salt. The hash that comes
    /// back verifies against `password`.
    fn hash(&self, password: &str) -> (hashed: Result<String, CryptoError>)
        ensures
            hashed matches Ok(phc) ==> phc_well_formed(phc@) && argon2_accepts(password@, phc@),
            hashed matches Err(error) ==> error is HashingFailed,
    {
        match argon2_hash(password) {
            Ok(phc) => Ok(phc),
            Err(error) => Err(CryptoError::HashingFailed(password_hash_error_text(&error))),
        }
    }

    /// Checks `password` against the stored hash. It succeeds exactly where
    /// the hash is well formed and Argon2 accepts the password for it. A
    /// malformed hash is reported as `InvalidHash`, never as a mismatch.
    fn verify(&self, password: &str, hashed_password: &str) -> (checked: Result<(), CryptoError>)
        ensures
            checked is Ok <==> phc_well_formed(hashed_password@) && argon2_accepts(
                password@,
                hashed_password@,
            ),
            !phc_well_formed(hashed_password@) ==> checked matches Err(
                CryptoError::InvalidHash(_),
            ),
            checked matches Err(error) ==> error is Mismatch || error is InvalidHash,
    {
        if let Some(reason) = phc_parse_error(hashed_password) {
            return Err(CryptoError::InvalidHash(reason));
        }
        match argon2_verify(password, hashed_password) {
            Ok(()) => Ok(()),
            Err(error) => {
                let password_is_wrong = is_password_variant(&error);
                Err(CryptoError::of_refusal(password_is_wrong, password_hash_error_text(&error)))
            },
        }
    }
}

} // verus!
