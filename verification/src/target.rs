//! From a time of day to the moment the countdown runs to.

use vstd::prelude::*;
use crate::clock::read_clock;
use crate::clock::read_local_time;
use crate::clock::LocalReading;
use crate::duration::Duration;
use crate::duration::NANOS_PER_SEC;
use crate::duration::SECS_PER_DAY;
use crate::error::HourError;
use crate::hour::parse_time_of_day;
use crate::hour::time_of_day_of;
use crate::hour::TimeOfDay;
use crate::timestamp::representable;
use crate::timestamp::Timestamp;

verus! {

/// What the local calendar makes of a time of day on one date.
#[derive(Clone, Copy, Debug, PartialEq, Eq, Structural)]
pub enum LocalTime {
    /// The time comes once on that date, at this moment.
    Unique(Timestamp),
    /// The time comes twice: the clocks were set back over it.
    Ambiguous,
    /// The time does not come: it is no time of day, or the clocks were set
    /// forward over it.
    Missing,
}

/// One day in nanoseconds.
pub open spec fn day_nanos() -> int {
    SECS_PER_DAY * NANOS_PER_SEC
}

/// The moment to count down to, in nanoseconds since the epoch, when the
/// wanted time of day comes today at `today` and the clock shows `now`:
/// today's, where that is still ahead, and else the moment 24 hours after
/// it.
pub open spec fn next_occurrence(today: int, now: int) -> int {
    if today > now {
        today
    } else {
        today + day_nanos()
    }
}

/// What follows from the calendar's answer for today and the clock's
/// reading: the target in nanoseconds since the epoch, or why there is
/// none.
pub open spec fn resolution(today: LocalTime, now: Timestamp) -> Result<int, HourError> {
    match today {
        LocalTime::Unique(t) => Ok(next_occurrence(t@, now@)),
        LocalTime::Ambiguous => Err(HourError::Ambiguous),
        LocalTime::Missing => Err(HourError::NoDatetime),
    }
}

/// The target that a text names, in nanoseconds since the epoch, when the
/// local calendar answers `today` for its time of day and the clock shows
/// `now`. A text that is no time of day names none, whatever the two say.
pub open spec fn target_of(text: Seq<char>, today: LocalTime, now: Timestamp) -> Result<
    int,
    HourError,
> {
    match time_of_day_of(text) {
        Err(e) => Err(e),
        Ok(_) => resolution(today, now),
    }
}

/// Whether the local calendar can give the answer `today` for the time of
/// day that `text` names: for a time that no clock shows, such as 24:00, it
/// has no moment.
pub open spec fn calendar_may_say(text: Seq<char>, today: LocalTime) -> bool {
    time_of_day_of(text) matches Ok(time) ==> !time.on_the_clock() ==> today is Missing
}

/// An answer with its moment taken in nanoseconds since the epoch.
pub open spec fn in_nanos(r: Result<Timestamp, HourError>) -> Result<int, HourError> {
    match r {
        Ok(t) => Ok(t@),
        Err(e) => Err(e),
    }
}

/// Picks the target from the calendar's answer for today and the clock's
/// reading. A time that is now or has passed is taken 24 hours later.
pub fn resolve_target(today: &LocalTime, now: &Timestamp) -> (r: Result<Timestamp, HourError>)
    requires
        today matches LocalTime::Unique(t) ==> representable(next_occurrence(t@, now@)),
    ensures
        in_nanos(r) == resolution(*today, *now),
{
    match today {
        LocalTime::Unique(t) => {
            if t.is_after(now) {
                Ok(*t)
            } else {
                Ok(t.plus(&Duration::days(1)))
            }
        },
        LocalTime::Ambiguous => Err(HourError::Ambiguous),
        LocalTime::Missing => Err(HourError::NoDatetime),
    }
}

/// Asks the local calendar when `time` comes on the given date.
fn local_time_on(year: i32, month: u32, day: u32, time: &TimeOfDay) -> (r: LocalTime)
    ensures
        !time.on_the_clock() ==> r is Missing,
        r matches LocalTime::Unique(t) ==> representable(t@) && representable(t@ + day_nanos()),
{
    let reading = read_local_time(
        year,
        month,
        day,
        time.hour,
        time.minute,
        time.second,
    );
    local_time_from(reading)
}

/// The calendar's answer as the library holds it: the moment of a unique
/// answer becomes a `Timestamp`, and the two other answers stay what they
/// are.
fn local_time_from(reading: LocalReading) -> (r: LocalTime)
    requires
        reading matches LocalReading::Unique(secs, nanos) ==> nanos < NANOS_PER_SEC
            && representable(secs * NANOS_PER_SEC + nanos),
    ensures
        match reading {
            LocalReading::Unique(secs, nanos) => r matches LocalTime::Unique(t) && t@ == secs
                * NANOS_PER_SEC + nanos,
            LocalReading::Ambiguous => r == LocalTime::Ambiguous,
            LocalReading::Missing => r == LocalTime::Missing,
        },
{
    match reading {
        LocalReading::Unique(secs, nanos) => LocalTime::Unique(
            Timestamp::new(secs, nanos).unwrap(),
        ),
        LocalReading::Ambiguous => LocalTime::Ambiguous,
        LocalReading::Missing => LocalTime::Missing,
    }
}

/// Reads a target hour, written `H`, `H:M` or `H:M:S`: that time of day
/// today by the local calendar, or 24 hours later where it is not ahead of
/// the clock.
///
/// The text is read before the clock is, so a text that is no time of day
/// gives its error whatever the clock shows. A time of day that no clock
/// shows is refused as `NoDatetime`. For the others the answer rests on the
/// clock and on the machine's time zone, of which nothing is known here:
/// the answer is what `target_of` gives for some reading of the two.
pub fn validate_hour(s: &str) -> (r: Result<Timestamp, HourError>)
    ensures
        time_of_day_of(s@) matches Err(e) ==> r == Err::<Timestamp, HourError>(e),
        time_of_day_of(s@) matches Ok(time) ==> !time.on_the_clock() ==> r == Err::<
            Timestamp,
            HourError,
        >(HourError::NoDatetime),
        exists|today: LocalTime, now: Timestamp|
            calendar_may_say(s@, today) && in_nanos(r) == #[trigger] target_of(s@, today, now),
{
    let time = match parse_time_of_day(s) {
        Ok(time) => time,
        Err(e) => {
            assert(in_nanos(Err(e)) == target_of(s@, LocalTime::Missing, arbitrary()));
            return Err(e);
        },
    };
    let clock = read_clock();
    let now = Timestamp::new(clock.secs, clock.nanos).unwrap();
    let today = local_time_on(clock.year, clock.month, clock.day, &time);
    let r = resolve_target(&today, &now);
    assert(in_nanos(r) == target_of(s@, today, now));
    r
}

/// Where the time of day that a text names comes once today, and is not
/// ahead of the clock, the text's target lies exactly 24 hours after it.
pub proof fn law_past_time_rolls_over(text: Seq<char>, today: Timestamp, now: Timestamp)
    requires
        time_of_day_of(text) is Ok,
        today@ <= now@,
    ensures
        target_of(text, LocalTime::Unique(today), now) == Ok::<int, HourError>(
            today@ + 24 * 3_600 * NANOS_PER_SEC,
        ),
{
}

/// Where it comes once today and is still ahead of the clock, the target
/// is that moment itself.
pub proof fn law_coming_time_stays(text: Seq<char>, today: Timestamp, now: Timestamp)
    requires
        time_of_day_of(text) is Ok,
        today@ > now@,
    ensures
        target_of(text, LocalTime::Unique(today), now) == Ok::<int, HourError>(today@),
{
}

/// A target taken from a unique time of day is always ahead of the clock
/// when that time and the clock's reading are less than 24 hours apart, as
/// they are on a day of 24 hours.
pub proof fn law_target_is_ahead(text: Seq<char>, today: Timestamp, now: Timestamp)
    requires
        time_of_day_of(text) is Ok,
        now@ - today@ < day_nanos(),
    ensures
        target_of(text, LocalTime::Unique(today), now) matches Ok(target) && target > now@,
{
}

} // verus!
