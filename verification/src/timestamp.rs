//! Points in time, counted from the Unix epoch.

use vstd::prelude::*;
use crate::duration::Duration;
use crate::duration::NANOS_PER_SEC;

verus! {

/// The largest number of whole seconds, either way from the epoch, that a
/// `Timestamp` holds: 2^50, some 35 million years. Two timestamps are then
/// never further apart than a `Duration` can say.
pub const MAX_TIMESTAMP_SECS: i64 = 0x4_0000_0000_0000;

/// Whether a `Timestamp` can hold the point `nanos` nanoseconds after the
/// epoch.
pub open spec fn representable(nanos: int) -> bool {
    -MAX_TIMESTAMP_SECS * NANOS_PER_SEC <= nanos < (MAX_TIMESTAMP_SECS + 1) * NANOS_PER_SEC
}

/// A point in time, exact to the nanosecond. Its view is the nanoseconds
/// that have passed since the epoch; leap seconds are not counted.
#[derive(Clone, Copy, Debug, PartialEq, Eq, Structural)]
pub struct Timestamp {
    secs: i64,
    nanos: u32,
}

impl View for Timestamp {
    type V = int;

    closed spec fn view(&self) -> int {
        self.secs * 1_000_000_000 + self.nanos
    }
}

impl Timestamp {
    /// Holds of every `Timestamp` that a program has in hand: the seconds are
    /// within the type's limit, and the nanoseconds below one second.
    #[verifier::type_invariant]
    pub closed spec fn is_valid(&self) -> bool {
        &&& -MAX_TIMESTAMP_SECS <= self.secs <= MAX_TIMESTAMP_SECS
        &&& self.nanos < NANOS_PER_SEC
    }

    /// Two valid points with one view are one point.
    pub proof fn lemma_view_decides(a: Timestamp, b: Timestamp)
        requires
            a.is_valid(),
            b.is_valid(),
            a@ == b@,
        ensures
            a == b,
    {
    }

    /// The point `secs` seconds and `nanos` nanoseconds after the epoch,
    /// where it can be held.
    pub fn new(secs: i64, nanos: u32) -> (r: Option<Timestamp>)
        ensures
            r is Some <==> -MAX_TIMESTAMP_SECS <= secs <= MAX_TIMESTAMP_SECS && nanos
                < NANOS_PER_SEC,
            r matches Some(t) ==> t@ == secs * NANOS_PER_SEC + nanos,
    {
        if -MAX_TIMESTAMP_SECS <= secs && secs <= MAX_TIMESTAMP_SECS && nanos < 1_000_000_000 {
            Some(Timestamp { secs, nanos })
        } else {
            None
        }
    }

    /// The whole seconds since the epoch, rounded down.
    pub fn seconds(&self) -> (r: i64)
        ensures
            r == self@ / (NANOS_PER_SEC as int),
            -MAX_TIMESTAMP_SECS <= r <= MAX_TIMESTAMP_SECS,
    {
        proof {
            use_type_invariant(self);
        }
        self.secs
    }

    /// The nanoseconds since the last whole second.
    pub fn subsec_nanos(&self) -> (r: u32)
        ensures
            r == self@ % (NANOS_PER_SEC as int),
    {
        proof {
            use_type_invariant(self);
        }
        self.nanos
    }

    /// Whether this point comes later than `other`.
    pub fn is_after(&self, other: &Timestamp) -> (r: bool)
        ensures
            r == (self@ > other@),
    {
        proof {
            use_type_invariant(self);
            use_type_invariant(other);
        }
        self.secs > other.secs || (self.secs == other.secs && self.nanos > other.nanos)
    }

    /// The span from `earlier` to this point; negative where `earlier` is
    /// in fact the later of the two.
    pub fn since(&self, earlier: &Timestamp) -> (r: Duration)
        ensures
            r@ == self@ - earlier@,
    {
        proof {
            use_type_invariant(self);
            use_type_invariant(earlier);
        }
        let (secs, nanos): (i64, u32) = if self.nanos >= earlier.nanos {
            (self.secs - earlier.secs, self.nanos - earlier.nanos)
        } else {
            (self.secs - earlier.secs - 1, self.nanos + 1_000_000_000 - earlier.nanos)
        };
        Duration::new(secs, nanos).unwrap()
    }

    /// This point moved by `span`.
    pub fn plus(&self, span: &Duration) -> (r: Timestamp)
        requires
            representable(self@ + span@),
        ensures
            r@ == self@ + span@,
    {
        proof {
            use_type_invariant(self);
        }
        let span_secs = span.floor_seconds();
        let span_nanos = span.subsec_nanos();
        let (secs, nanos): (i64, u32) = if self.nanos + span_nanos < 1_000_000_000 {
            (self.secs + span_secs, self.nanos + span_nanos)
        } else {
            (self.secs + span_secs + 1, self.nanos + span_nanos - 1_000_000_000)
        };
        Timestamp { secs, nanos }
    }
}

} // verus!
