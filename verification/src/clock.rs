//! The system clock and the local calendar, as chrono reads them. Nothing in
//! this file is proved: each function states what chrono's source shows of
//! the call it makes.

use vstd::prelude::*;
use chrono::Datelike;
use chrono::TimeZone;

verus! {

/// One reading of the clock: the moment in seconds and nanoseconds since
/// the epoch, and the date that the local calendar shows at that moment.
pub(crate) struct ClockReading {
    pub secs: i64,
    pub nanos: u32,
    pub year: i32,
    pub month: u32,
    pub day: u32,
}

/// What the local calendar makes of a date and a time of day.
pub(crate) enum LocalReading {
    /// One moment, in seconds and nanoseconds since the epoch.
    Unique(i64, u32),
    /// Two moments: the clocks were set back over this time.
    Ambiguous,
    /// No moment: the date or the time does not exist, or the clocks were
    /// set forward over it.
    Missing,
}

/// Reads the clock with `chrono::Local::now`, and takes from the result
/// `timestamp`, `timestamp_subsec_nanos`, `year`, `month` and `day`.
///
/// Claimed of chrono: `timestamp` multiplies a day count held in an `i32`
/// by 86 400 and adds a second of the day held in a `u32`, which stays
/// within 2^48 either way; and `now` takes its nanoseconds from
/// `std::time::Duration::subsec_nanos`, which is below one second.
/// Nothing is claimed of the date, nor of which moment is read.
/// chrono stops the program where the system clock stands before 1970.
#[verifier::external_body]
pub(crate) fn read_clock() -> (r: ClockReading)
    ensures
        -0x1_0000_0000_0000 < r.secs < 0x1_0000_0000_0000,
        r.nanos < 1_000_000_000,
{
    let now = chrono::Local::now();
    ClockReading {
        secs: now.timestamp(),
        nanos: now.timestamp_subsec_nanos(),
        year: now.year(),
        month: now.month(),
        day: now.day(),
    }
}

/// Asks `chrono::Local` for the moment at which the local calendar shows
/// the given date and time of day, with `TimeZone::with_ymd_and_hms`.
///
/// Claimed of chrono: an hour of 24 or more, or a minute or second of 60
/// or more, has no moment (`NaiveTime::from_hms_opt` refuses it before
/// the time zone is looked at); the seconds of a moment stay within 2^48
/// either way, as said at `read_clock`; and its nanoseconds are below one
/// second (they are zero: the time is made without a fraction, and the
/// zone's offset is whole seconds). Which of the three answers comes for a
/// time that a clock can show depends on the machine's time zone, and is
/// not claimed.
#[verifier::external_body]
pub(crate) fn read_local_time(
    year: i32,
    month: u32,
    day: u32,
    hour: u32,
    minute: u32,
    second: u32,
) -> (r: LocalReading)
    ensures
        hour >= 24 || minute >= 60 || second >= 60 ==> r is Missing,
        r matches LocalReading::Unique(secs, nanos) ==> -0x1_0000_0000_0000 < secs
            < 0x1_0000_0000_0000 && nanos < 1_000_000_000,
{
    match chrono::Local.with_ymd_and_hms(year, month, day, hour, minute, second) {
        chrono::LocalResult::Single(t) => LocalReading::Unique(
            t.timestamp(),
            t.timestamp_subsec_nanos(),
        ),
        chrono::LocalResult::Ambiguous(_, _) => LocalReading::Ambiguous,
        chrono::LocalResult::None => LocalReading::Missing,
    }
}

} // verus!
