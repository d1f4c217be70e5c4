//! Signed spans of time.

use vstd::prelude::*;

verus! {

pub const NANOS_PER_SEC: i64 = 1_000_000_000;

pub const SECS_PER_MINUTE: i64 = 60;

pub const SECS_PER_HOUR: i64 = 3_600;

pub const SECS_PER_DAY: i64 = 86_400;

/// The largest number of whole seconds, either way, that a `Duration` holds.
pub const MAX_DURATION_SECS: i64 = 9_223_372_036_854_775;

/// `a / b` rounded towards zero, for a positive `b`.
pub open spec fn quotient(a: int, b: int) -> int
    recommends
        b > 0,
{
    if a >= 0 {
        a / b
    } else {
        -((-a) / b)
    }
}

/// What `quotient` leaves over; it has the sign of `a`.
pub open spec fn remainder(a: int, b: int) -> int
    recommends
        b > 0,
{
    a - b * quotient(a, b)
}

/// A signed span of time, exact to the nanosecond. Its view is the span in
/// nanoseconds.
#[derive(Clone, Copy, Debug, PartialEq, Eq, Structural)]
pub struct Duration {
    secs: i64,
    nanos: u32,
}

impl View for Duration {
    type V = int;

    closed spec fn view(&self) -> int {
        self.secs * 1_000_000_000 + self.nanos
    }
}

impl Duration {
    /// Holds of every `Duration` that a program has in hand: the seconds are
    /// within the type's limit, and the nanoseconds below one second.
    #[verifier::type_invariant]
    pub closed spec fn is_valid(&self) -> bool {
        &&& -MAX_DURATION_SECS <= self.secs <= MAX_DURATION_SECS
        &&& self.nanos < NANOS_PER_SEC
    }

    /// The whole seconds of the span, rounded towards zero.
    pub open spec fn whole_seconds(&self) -> int {
        quotient(self@, NANOS_PER_SEC as int)
    }

    /// Two valid spans with one view are one span.
    pub proof fn lemma_view_decides(a: Duration, b: Duration)
        requires
            a.is_valid(),
            b.is_valid(),
            a@ == b@,
        ensures
            a == b,
    {
    }

    /// A span of `secs` seconds and `nanos` nanoseconds, where it can be held.
    pub fn new(secs: i64, nanos: u32) -> (r: Option<Duration>)
        ensures
            r is Some <==> -MAX_DURATION_SECS <= secs <= MAX_DURATION_SECS && nanos
                < NANOS_PER_SEC,
            r matches Some(d) ==> d@ == secs * NANOS_PER_SEC + nanos,
    {
        if -MAX_DURATION_SECS <= secs && secs <= MAX_DURATION_SECS && nanos < 1_000_000_000 {
            Some(Duration { secs, nanos })
        } else {
            None
        }
    }

    /// A span of `seconds` seconds.
    pub fn seconds(seconds: i64) -> (r: Duration)
        requires
            -MAX_DURATION_SECS <= seconds <= MAX_DURATION_SECS,
        ensures
            r@ == seconds * NANOS_PER_SEC,
    {
        Duration { secs: seconds, nanos: 0 }
    }

    /// A span of `hours` hours.
    pub fn hours(hours: i64) -> (r: Duration)
        requires
            -MAX_DURATION_SECS <= hours * SECS_PER_HOUR <= MAX_DURATION_SECS,
        ensures
            r@ == hours * SECS_PER_HOUR * NANOS_PER_SEC,
    {
        Duration { secs: hours * SECS_PER_HOUR, nanos: 0 }
    }

    /// A span of `days` days of 24 hours.
    pub fn days(days: i64) -> (r: Duration)
        requires
            -MAX_DURATION_SECS <= days * SECS_PER_DAY <= MAX_DURATION_SECS,
        ensures
            r@ == days * SECS_PER_DAY * NANOS_PER_SEC,
    {
        Duration { secs: days * SECS_PER_DAY, nanos: 0 }
    }

    /// The whole seconds of the span, rounded towards zero.
    pub fn num_seconds(&self) -> (r: i64)
        ensures
            r == self.whole_seconds(),
            -MAX_DURATION_SECS <= r <= MAX_DURATION_SECS,
    {
        proof {
            use_type_invariant(self);
        }
        if self.secs < 0 && self.nanos > 0 {
            self.secs + 1
        } else {
            self.secs
        }
    }

    /// The whole seconds of the span, rounded down.
    pub fn floor_seconds(&self) -> (r: i64)
        ensures
            r == self@ / (NANOS_PER_SEC as int),
            -MAX_DURATION_SECS <= r <= MAX_DURATION_SECS,
    {
        proof {
            use_type_invariant(self);
        }
        self.secs
    }

    /// The nanoseconds by which the span exceeds `floor_seconds`.
    pub fn subsec_nanos(&self) -> (r: u32)
        ensures
            r == self@ % (NANOS_PER_SEC as int),
    {
        proof {
            use_type_invariant(self);
        }
        self.nanos
    }

    /// The whole minutes of the span, rounded towards zero.
    pub fn num_minutes(&self) -> (r: i64)
        ensures
            r == quotient(self.whole_seconds(), SECS_PER_MINUTE as int),
    {
        self.num_seconds() / SECS_PER_MINUTE
    }

    /// The whole hours of the span, rounded towards zero.
    pub fn num_hours(&self) -> (r: i64)
        ensures
            r == quotient(self.whole_seconds(), SECS_PER_HOUR as int),
    {
        self.num_seconds() / SECS_PER_HOUR
    }

    /// The whole days of the span, rounded towards zero.
    pub fn num_days(&self) -> (r: i64)
        ensures
            r == quotient(self.whole_seconds(), SECS_PER_DAY as int),
    {
        self.num_seconds() / SECS_PER_DAY
    }

    /// Whether the span is zero or runs forward.
    pub fn is_non_negative(&self) -> (r: bool)
        ensures
            r == (self@ >= 0),
    {
        proof {
            use_type_invariant(self);
        }
        self.secs >= 0
    }
}

} // verus!
