//! Conversion between the UTC instant of the domain and the offset-naive
//! wall-clock reading of the store.
//!
//! On the way in the offset of the instant is discarded and its date and
//! time of day are kept; on the way out a stored reading is taken as UTC.
//! Both types resolve one nanosecond, so the conversion loses nothing and
//! the two directions are inverse to each other. An engine whose own clock
//! type is coarser cuts what it stores: PostgreSQL's `timestamp` resolves
//! one microsecond, so an instant re-read from it has lost what lay below
//! the microsecond.

use vstd::prelude::*;
use crate::types::{NaiveTimestamp, Timestamp};

verus! {

/// The stored reading of a UTC instant: the same wall clock with the offset
/// discarded.
pub open spec fn primitive_of(datetime: Timestamp) -> NaiveTimestamp {
    NaiveTimestamp { seconds: datetime.seconds, nanosecond: datetime.nanoseconds }
}

/// The UTC instant that a stored reading stands for: the same wall clock,
/// taken as UTC.
pub open spec fn datetime_utc_of(primitive: NaiveTimestamp) -> Timestamp {
    Timestamp { seconds: primitive.seconds, nanoseconds: primitive.nanosecond }
}

/// Converts a UTC instant to the reading that the store holds for it.
pub fn convert_datetime_utc_to_primitive(datetime: &Timestamp) -> (primitive: NaiveTimestamp)
    ensures
        primitive == primitive_of(*datetime),
        datetime.is_valid() ==> primitive.is_valid(),
{
    NaiveTimestamp { seconds: datetime.seconds, nanosecond: datetime.nanoseconds }
}

/// Converts a stored reading to the UTC instant it stands for.
pub fn convert_primitive_to_datetime_utc(primitive: &NaiveTimestamp) -> (datetime: Timestamp)
    ensures
        datetime == datetime_utc_of(*primitive),
        primitive.is_valid() ==> datetime.is_valid(),
{
    Timestamp { seconds: primitive.seconds, nanoseconds: primitive.nanosecond }
}

/// Storing an instant and reading it back yields the instant, to the
/// nanosecond.
pub proof fn lemma_datetime_round_trip(datetime: Timestamp)
    ensures
        datetime_utc_of(primitive_of(datetime)) == datetime,
{
}

/// Reading a stored value and storing it again yields the value, to the
/// nanosecond.
pub proof fn lemma_primitive_round_trip(primitive: NaiveTimestamp)
    ensures
        primitive_of(datetime_utc_of(primitive)) == primitive,
{
}

/// The conversion keeps the order of instants: it neither swaps two
/// instants nor merges two into one.
pub proof fn lemma_conversion_keeps_order(earlier: Timestamp, later: Timestamp)
    ensures
        earlier.precedes(later) <==> datetime_utc_of(primitive_of(earlier)).precedes(
            datetime_utc_of(primitive_of(later)),
        ),
        primitive_of(earlier) == primitive_of(later) <==> earlier == later,
{
}

} // verus!
