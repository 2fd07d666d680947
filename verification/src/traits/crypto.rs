//! Credential hashing.

use vstd::prelude::*;

verus! {

/// A one-way transform of a raw secret into a storable hash, and the check
/// of a raw secret against a stored hash.
pub trait ICrypto: Send + Sync {
    type Error: Send + Sync;

    /// Hashes `source` under a fresh salt.
    fn hash(&self, source: &str) -> Result<String, Self::Error>;

    /// Checks `source` against `hashed`.
    fn verify(&self, source: &str, hashed: &str) -> Result<(), Self::Error>;
}

} // verus!
