//! Plain values shared by every layer: identifiers and timestamps.

use vstd::prelude::*;

verus! {

/// Identifier of a stored entity: the 128 bits of a UUID, most significant
/// byte first.
pub type ID = u128;

/// The bits of an identifier that hold the UUID version and variant.
pub const UUID_FIXED_BITS: u128 = 0x0000_0000_0000_F000_C000_0000_0000_0000u128;

/// What the version and variant bits hold in a random (version 4) UUID.
pub const UUID_RANDOM_MARK: u128 = 0x0000_0000_0000_4000_8000_0000_0000_0000u128;

/// Whether `id` has the shape of a random (version 4, RFC 4122) UUID.
pub open spec fn is_random_uuid(id: ID) -> bool {
    id & UUID_FIXED_BITS == UUID_RANDOM_MARK
}

/// Whether `id` is the nil identifier, which no entity carries.
pub open spec fn is_nil(id: ID) -> bool {
    id == 0
}

/// Tells whether `id` has the shape of a random UUID.
pub fn has_random_uuid_shape(id: ID) -> (shaped: bool)
    ensures
        shaped == is_random_uuid(id),
{
    id & UUID_FIXED_BITS == UUID_RANDOM_MARK
}

/// An identifier with the shape of a random UUID is never nil.
pub proof fn lemma_random_uuid_is_not_nil(id: ID)
    requires
        is_random_uuid(id),
    ensures
        !is_nil(id),
{
    assert(id & UUID_FIXED_BITS == UUID_RANDOM_MARK ==> id != 0) by (bit_vector);
}

/// Nanoseconds in one second.
pub const NANOS_PER_SECOND: u32 = 1_000_000_000u32;

/// A UTC instant: whole seconds since 1970-01-01 00:00:00 UTC and the
/// nanoseconds into that second.
#[derive(Clone, Copy, Debug, PartialEq, Eq, Structural)]
pub struct Timestamp {
    pub seconds: i64,
    pub nanoseconds: u32,
}

impl Timestamp {
    /// The nanoseconds stay within one second.
    pub open spec fn is_valid(self) -> bool {
        self.nanoseconds < NANOS_PER_SECOND
    }

    /// Nanoseconds between the epoch and this instant.
    pub open spec fn instant(self) -> int {
        self.seconds * (NANOS_PER_SECOND as int) + self.nanoseconds
    }

    /// This instant lies strictly before `other`.
    pub open spec fn precedes(self, other: Timestamp) -> bool {
        self.seconds < other.seconds || (self.seconds == other.seconds && self.nanoseconds
            < other.nanoseconds)
    }

    pub fn new(seconds: i64, nanoseconds: u32) -> (stamp: Timestamp)
        ensures
            stamp.seconds == seconds,
            stamp.nanoseconds == nanoseconds,
    {
        Timestamp { seconds, nanoseconds }
    }

    /// Whether the nanoseconds stay within one second.
    pub fn check_valid(&self) -> (valid: bool)
        ensures
            valid == self.is_valid(),
    {
        self.nanoseconds < NANOS_PER_SECOND
    }

    /// Whether this instant lies strictly before `other`.
    pub fn is_before(&self, other: &Timestamp) -> (before: bool)
        ensures
            before == self.precedes(*other),
    {
        self.seconds < other.seconds || (self.seconds == other.seconds && self.nanoseconds
            < other.nanoseconds)
    }
}

/// On valid timestamps, `precedes` is the order of the instants.
pub proof fn lemma_precedes_orders_instants(a: Timestamp, b: Timestamp)
    requires
        a.is_valid(),
        b.is_valid(),
    ensures
        a.precedes(b) <==> a.instant() < b.instant(),
{
    let unit = NANOS_PER_SECOND as int;
    if a.seconds < b.seconds {
        assert(a.seconds * unit + unit <= b.seconds * unit) by (nonlinear_arith)
            requires
                a.seconds < b.seconds,
                unit > 0,
        ;
    } else if a.seconds > b.seconds {
        assert(b.seconds * unit + unit <= a.seconds * unit) by (nonlinear_arith)
            requires
                b.seconds < a.seconds,
                unit > 0,
        ;
    }
}

/// An offset-naive wall-clock reading as the store holds it: whole seconds
/// between 1970-01-01 00:00:00 on that clock and the reading, and the
/// nanosecond within the second.
#[derive(Clone, Copy, Debug, PartialEq, Eq, Structural)]
pub struct NaiveTimestamp {
    pub seconds: i64,
    pub nanosecond: u32,
}

impl NaiveTimestamp {
    /// The nanosecond stays within one second.
    pub open spec fn is_valid(self) -> bool {
        self.nanosecond < NANOS_PER_SECOND
    }

    pub fn new(seconds: i64, nanosecond: u32) -> (stamp: NaiveTimestamp)
        ensures
            stamp.seconds == seconds,
            stamp.nanosecond == nanosecond,
    {
        NaiveTimestamp { seconds, nanosecond }
    }
}

} // verus!
