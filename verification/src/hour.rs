//! Reading a time of day written as `H`, `H:M` or `H:M:S`.

use vstd::prelude::*;
use crate::error::HourError;
use crate::number::number_of;
use crate::number::read_number;

verus! {

/// Hour, minute and second as written; nothing says yet that a clock shows
/// them.
#[derive(Clone, Copy, Debug, PartialEq, Eq, Structural)]
pub struct TimeOfDay {
    pub hour: u32,
    pub minute: u32,
    pub second: u32,
}

impl TimeOfDay {
    /// A clock can show this time: the hour is below 24, minute and second
    /// below 60.
    pub open spec fn on_the_clock(&self) -> bool {
        self.hour < 24 && self.minute < 60 && self.second < 60
    }
}

/// The text before the first `:` and, where there is a `:`, the text after it.
pub open spec fn split_at_colon(text: Seq<char>) -> (Seq<char>, Option<Seq<char>>) {
    match text.index_of_first(':') {
        Some(i) => (text.take(i), Some(text.skip(i + 1))),
        None => (text, None),
    }
}

/// What a text reads as: up to three fields parted by the first two colons,
/// hour first; a field that is not written is 0. Whatever follows the second
/// colon is the second field, further colons included. The fields are read
/// in order, and the first that is no number decides the error.
pub open spec fn time_of_day_of(text: Seq<char>) -> Result<TimeOfDay, HourError> {
    let (hour_text, after_hour) = split_at_colon(text);
    match number_of(hour_text) {
        Err(_) => Err(HourError::InvalidHour),
        Ok(hour) => match after_hour {
            None => Ok(TimeOfDay { hour, minute: 0, second: 0 }),
            Some(rest) => {
                let (minute_text, second_text) = split_at_colon(rest);
                match number_of(minute_text) {
                    Err(reason) => Err(HourError::InvalidMinute(reason)),
                    Ok(minute) => match second_text {
                        None => Ok(TimeOfDay { hour, minute, second: 0 }),
                        Some(last) => match number_of(last) {
                            Err(_) => Err(HourError::InvalidSecond),
                            Ok(second) => Ok(TimeOfDay { hour, minute, second }),
                        },
                    },
                }
            },
        },
    }
}

/// The characters of a string, in order.
fn characters(s: &str) -> (chars: Vec<char>)
    ensures
        chars@ == s@,
{
    let mut chars: Vec<char> = Vec::new();
    for c in it: s.chars()
        invariant
            it.seq() == s@,
            chars@ == s@.take(it.index() as int),
    {
        chars.push(c);
    }
    chars
}

/// The place of the first `:` at or after `from`.
fn find_colon(chars: &Vec<char>, from: usize) -> (r: Option<usize>)
    requires
        from <= chars.len(),
    ensures
        match r {
            Some(i) => from <= i < chars.len() && chars@.skip(from as int).index_of_first(':')
                == Some(i - from),
            None => chars@.skip(from as int).index_of_first(':') is None,
        },
{
    let ghost tail = chars@.skip(from as int);
    let mut i: usize = from;
    while i < chars.len()
        invariant
            from <= i <= chars.len(),
            tail == chars@.skip(from as int),
            forall|j: int| 0 <= j < i - from ==> tail[j] != ':',
        decreases chars.len() - i,
    {
        if chars[i] == ':' {
            proof {
                tail.index_of_first_ensures(':');
                assert(tail[i - from] == ':');
            }
            return Some(i);
        }
        i = i + 1;
    }
    proof {
        tail.index_of_first_ensures(':');
    }
    None
}

/// Reads a time of day from `s`.
pub fn parse_time_of_day(s: &str) -> (r: Result<TimeOfDay, HourError>)
    ensures
        r == time_of_day_of(s@),
{
    let chars = characters(s);
    let end = chars.len();
    let first = find_colon(&chars, 0);
    assert(chars@.skip(0) =~= chars@);
    let hour_end = match first {
        Some(i) => i,
        None => end,
    };
    assert(chars@.subrange(0, hour_end as int) =~= split_at_colon(s@).0);
    let hour = match read_number(&chars, 0, hour_end) {
        Ok(n) => n,
        Err(_) => {
            return Err(HourError::InvalidHour);
        },
    };
    let minute_start = match first {
        Some(i) => i + 1,
        None => {
            return Ok(TimeOfDay { hour, minute: 0, second: 0 });
        },
    };
    let ghost rest = chars@.skip(minute_start as int);
    assert(split_at_colon(s@).1 == Some(rest));
    let second_colon = find_colon(&chars, minute_start);
    let minute_end = match second_colon {
        Some(i) => i,
        None => end,
    };
    assert(chars@.subrange(minute_start as int, minute_end as int) =~= split_at_colon(rest).0);
    let minute = match read_number(&chars, minute_start, minute_end) {
        Ok(n) => n,
        Err(reason) => {
            return Err(HourError::InvalidMinute(reason));
        },
    };
    let second_start = match second_colon {
        Some(i) => i + 1,
        None => {
            return Ok(TimeOfDay { hour, minute, second: 0 });
        },
    };
    assert(chars@.subrange(second_start as int, end as int) =~= split_at_colon(rest).1->Some_0);
    match read_number(&chars, second_start, end) {
        Ok(second) => Ok(TimeOfDay { hour, minute, second }),
        Err(_) => Err(HourError::InvalidSecond),
    }
}

} // verus!
