//! Fresh identifiers.

use vstd::prelude::*;
use crate::types::{ID, is_random_uuid, is_nil, lemma_random_uuid_is_not_nil};

verus! {

/// Calls `uuid::Uuid::new_v4` and reads the result with `Uuid::as_u128`.
/// The value is random; what holds of every outcome is that the version and
/// variant bits are those of a random UUID, which `new_v4` sets by masking.
#[verifier::external_body]
fn uuid_new_v4() -> (id: ID)
    ensures
        is_random_uuid(id),
{
    uuid::Uuid::new_v4().as_u128()
}

/// Calls `rand::Rng::random::<i32>` on the thread's generator, `rand::rng()`.
/// Any `i32` may come back.
#[verifier::external_body]
pub(crate) fn random_i32() -> i32 {
    rand::Rng::random::<i32>(&mut rand::rng())
}

/// A fresh entity identifier: random, shaped as a version 4 UUID, never nil.
pub fn fresh_id() -> (id: ID)
    ensures
        is_random_uuid(id),
        !is_nil(id),
{
    let id = uuid_new_v4();
    proof {
        lemma_random_uuid_is_not_nil(id);
    }
    id
}

} // verus!
