//! A span of time in words: "1h 1m 2s".

use vstd::prelude::*;
use vstd::string::*;
use crate::decimal::decimal_text;
use crate::decimal::push_decimal;
use crate::duration::quotient;
use crate::duration::remainder;
use crate::duration::Duration;

verus! {

/// A count with its unit, as in "12h"; nothing for a count that is not
/// positive.
pub open spec fn unit_text(count: int, unit: char) -> Seq<char> {
    if count > 0 {
        decimal_text(count as nat).push(unit)
    } else {
        Seq::empty()
    }
}

/// Two texts parted by one space; where one is empty, the other alone.
pub open spec fn spaced(left: Seq<char>, right: Seq<char>) -> Seq<char> {
    if left.len() == 0 {
        right
    } else if right.len() == 0 {
        left
    } else {
        left + seq![' '] + right
    }
}

/// Days, hours, minutes and seconds of a span, each with its unit, largest
/// first, parted by single spaces.
pub open spec fn parts_text(days: int, hours: int, minutes: int, seconds: int) -> Seq<char> {
    spaced(
        spaced(spaced(unit_text(days, 'd'), unit_text(hours, 'h')), unit_text(minutes, 'm')),
        unit_text(seconds, 's'),
    )
}

/// How a span of `seconds` whole seconds is written: its days, then what is
/// left of it in hours, minutes and seconds. A part that is zero is left
/// out, so a span of zero is written as nothing; so is a span that runs
/// backwards, none of whose parts is positive.
pub open spec fn duration_text(seconds: int) -> Seq<char> {
    parts_text(
        quotient(seconds, 86_400),
        remainder(quotient(seconds, 3_600), 24),
        remainder(quotient(seconds, 60), 60),
        remainder(seconds, 60),
    )
}

/// Appends a count with its unit to `out`, after a space where `out` holds
/// something already; a count that is not positive adds nothing.
fn push_unit(out: &mut String, count: i64, unit: &str)
    requires
        unit@.len() == 1,
    ensures
        final(out)@ == spaced(old(out)@, unit_text(count as int, unit@[0])),
{
    if count > 0 {
        if !out.as_str().is_empty() {
            proof {
                reveal_strlit(" ");
            }
            out.append(" ");
        }
        push_decimal(out, count as u64);
        out.append(unit);
        assert(final(out)@ =~= spaced(old(out)@, unit_text(count as int, unit@[0])));
    }
}

/// Writes a span for the reader, as `duration_text` says of its whole
/// seconds: "1h 1m 2s" for 3662 seconds, nothing for none.
pub fn format_duration(duration: &Duration) -> (text: String)
    ensures
        text@ == duration_text(duration.whole_seconds()),
{
    let days = duration.num_days();
    let hours = duration.num_hours() % 24;
    let minutes = duration.num_minutes() % 60;
    let seconds = duration.num_seconds() % 60;
    proof {
        reveal_strlit("d");
        reveal_strlit("h");
        reveal_strlit("m");
        reveal_strlit("s");
    }
    let mut text = String::new();
    push_unit(&mut text, days, "d");
    push_unit(&mut text, hours, "h");
    push_unit(&mut text, minutes, "m");
    push_unit(&mut text, seconds, "s");
    text
}

/// A span put together from days, hours below 24, minutes below 60 and
/// seconds below 60 is written as exactly those of the four that are not
/// zero, in that order, parted by single spaces.
pub proof fn law_parts_in_order(days: nat, hours: nat, minutes: nat, seconds: nat)
    requires
        hours < 24,
        minutes < 60,
        seconds < 60,
    ensures
        duration_text((days * 86_400 + hours * 3_600 + minutes * 60 + seconds) as int) == parts_text(
            days as int,
            hours as int,
            minutes as int,
            seconds as int,
        ),
{
    let total: int = (days * 86_400 + hours * 3_600 + minutes * 60 + seconds) as int;
    assert(quotient(total, 86_400) == days);
    assert(quotient(total, 3_600) == days * 24 + hours);
    assert(quotient(total, 60) == days * 1_440 + hours * 60 + minutes);
    assert(remainder(quotient(total, 3_600), 24) == hours);
    assert(remainder(quotient(total, 60), 60) == minutes);
    assert(remainder(total, 60) == seconds);
}

/// A span of zero is written as nothing.
pub proof fn law_zero_is_empty()
    ensures
        duration_text(0) == Seq::<char>::empty(),
{
    assert(duration_text(0) =~= Seq::<char>::empty());
}

} // verus!
