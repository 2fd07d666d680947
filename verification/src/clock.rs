//! The wall clock.

use vstd::prelude::*;
use crate::types::Timestamp;

verus! {

/// Calls `chrono::Utc::now` and reads the result with `DateTime::timestamp`
/// and `DateTime::timestamp_subsec_nanos`. The reading depends on the
/// moment of the call; what holds of every outcome is that the nanoseconds
/// stay below one second, since `Utc::now` builds its result from the
/// sub-second part of a `std::time::Duration`.
#[verifier::external_body]
pub(crate) fn now() -> (reading: Timestamp)
    ensures
        reading.is_valid(),
{
    let now = chrono::Utc::now();
    Timestamp { seconds: now.timestamp(), nanoseconds: now.timestamp_subsec_nanos() }
}

} // verus!
