//! The countdown as a state machine, and the line it draws at each tick.
//!
//! The machine is either waiting, with the time that was left at the last
//! look at the clock, or done. The caller owns the loop: it hands in the
//! clock's reading and the terminal's width, draws the line it gets back,
//! sleeps, and asks with a new reading whether the wait goes on.

use vstd::prelude::*;
use vstd::string::*;
use crate::decimal::decimal_text;
use crate::decimal::push_decimal;
use crate::duration::quotient;
use crate::duration::Duration;
use crate::duration::NANOS_PER_SEC;
use crate::format::duration_text;
use crate::format::format_duration;
use crate::timestamp::Timestamp;

verus! {

/// The characters of a line beside the bar's cells, the percentage and the
/// time left: `[`, `>`, `] ` and `% `.
pub const FRAME_CHARS: usize = 6;

/// Elapsed time as a percentage of the whole, rounded towards zero and kept
/// to 16 bits.
pub open spec fn percent_of(elapsed_secs: int, total_secs: int) -> int
    recommends
        total_secs > 0,
{
    quotient(elapsed_secs * 100, total_secs) % 0x1_0000
}

/// `count` times the character `c`.
pub open spec fn repeated(c: char, count: int) -> Seq<char> {
    Seq::new(count as nat, |i: int| c)
}

/// The progress line: a bar of `room` cells of which `filled` are drawn,
/// with the head `>` between the drawn and the blank ones, then the
/// percentage and the time left. The last line of a countdown ends in a
/// line feed; every other ends in a carriage return, so that the next is
/// drawn over it.
pub open spec fn line_text(
    filled: int,
    room: int,
    percent: int,
    remaining: Seq<char>,
    last: bool,
) -> Seq<char> {
    seq!['['] + repeated('=', filled) + seq!['>'] + repeated(' ', room - filled) + seq![']', ' ']
        + decimal_text(percent as nat) + seq!['%', ' '] + remaining + seq![if last {
        '\n'
    } else {
        '\r'
    }]
}

/// A line with its bar drawn within the room it has takes that room, the
/// frame's six characters, the percentage, the time left and the line's
/// end: one character more than the width that `Countdown::tick` measured
/// the room for.
pub proof fn law_line_fills_the_width(
    filled: nat,
    room: nat,
    percent: nat,
    remaining: Seq<char>,
    last: bool,
)
    requires
        filled <= room,
    ensures
        line_text(filled as int, room as int, percent as int, remaining, last).len() == room
            + FRAME_CHARS + decimal_text(percent).len() + remaining.len() + 1,
{
}

/// Where the countdown stands.
#[derive(Clone, Copy, Debug, PartialEq, Eq, Structural)]
pub enum Phase {
    /// The target is not behind; this much time was left at the last look.
    Waiting(Duration),
    /// The target is behind.
    Done,
}

/// Why no line can be drawn.
#[derive(Clone, Copy, Debug, PartialEq, Eq, Structural)]
pub enum TickError {
    /// The terminal's width is not known.
    NoTerminalSize,
    /// The whole countdown is shorter than a second, so no percentage of it
    /// can be taken.
    NoWholeSecond,
    /// The terminal is too narrow for the percentage and the time left.
    TooNarrow,
}

/// What one tick shows, but for the number of cells to draw.
#[derive(Debug)]
pub struct Frame {
    /// The cells of the bar, drawn and blank together.
    pub room: usize,
    /// Elapsed time as a percentage of the whole.
    pub percent: u16,
    /// The time left, in words.
    pub remaining: String,
    /// Whether under a second is left, so that this line is the last.
    pub last: bool,
}

/// A countdown from `start` to `target`. The target never lies before the
/// start.
#[derive(Clone, Copy, Debug, PartialEq, Eq, Structural)]
pub struct Countdown {
    start: Timestamp,
    target: Timestamp,
}

impl Countdown {
    #[verifier::type_invariant]
    spec fn well_formed(&self) -> bool {
        self.start@ <= self.target@
    }

    /// When the countdown began, in nanoseconds since the epoch.
    pub closed spec fn start_view(&self) -> int {
        self.start@
    }

    /// When the countdown ends, in nanoseconds since the epoch.
    pub closed spec fn target_view(&self) -> int {
        self.target@
    }

    /// The whole seconds from start to target.
    pub open spec fn total_seconds(&self) -> int {
        quotient(self.target_view() - self.start_view(), NANOS_PER_SEC as int)
    }

    /// The whole seconds from start to `now`.
    pub open spec fn elapsed_seconds(&self, now: Timestamp) -> int {
        quotient(now@ - self.start_view(), NANOS_PER_SEC as int)
    }

    /// A countdown from `start` to `target`, unless the target lies before
    /// the start.
    pub fn new(start: Timestamp, target: Timestamp) -> (r: Option<Countdown>)
        ensures
            r is Some <==> start@ <= target@,
            r matches Some(c) ==> c.start_view() == start@ && c.target_view() == target@,
    {
        if start.is_after(&target) {
            None
        } else {
            Some(Countdown { start, target })
        }
    }

    /// The time from start to target.
    pub fn total(&self) -> (r: Duration)
        ensures
            r@ == self.target_view() - self.start_view(),
            r@ >= 0,
    {
        proof {
            use_type_invariant(self);
        }
        self.target.since(&self.start)
    }

    /// The state in which a countdown starts: waiting, with all of its time
    /// left.
    pub fn begin(&self) -> (r: Phase)
        ensures
            r matches Phase::Waiting(left) && left@ == self.target_view() - self.start_view(),
    {
        Phase::Waiting(self.total())
    }

    /// The state after a sleep, when the clock shows `now`: waiting, with
    /// the time from `now` to the target, as long as that is not negative.
    pub fn after_sleep(&self, now: &Timestamp) -> (r: Phase)
        ensures
            self.target_view() >= now@ ==> (r matches Phase::Waiting(left) && left@
                == self.target_view() - now@),
            self.target_view() < now@ ==> r == Phase::Done,
    {
        let left = self.target.since(now);
        if left.is_non_negative() {
            Phase::Waiting(left)
        } else {
            Phase::Done
        }
    }

    /// What to show while waiting with `remaining` left, when the clock
    /// shows `now` and the terminal is `width` characters wide. The
    /// percentage is taken from `now`; the time left is the one that the
    /// state carries from the look before. The width is asked for first,
    /// then the percentage is taken, then the line is measured, and the
    /// first of these that fails decides the error.
    pub fn tick(&self, remaining: &Duration, now: &Timestamp, width: Option<u16>) -> (r: Result<
        Frame,
        TickError,
    >)
        ensures
            width is None ==> r == Err::<Frame, TickError>(TickError::NoTerminalSize),
            width is Some && self.total_seconds() == 0 ==> r == Err::<Frame, TickError>(
                TickError::NoWholeSecond,
            ),
            width matches Some(w) ==> self.total_seconds() != 0 ==> {
                let percent = percent_of(self.elapsed_seconds(*now), self.total_seconds());
                let words = duration_text(remaining.whole_seconds());
                let taken = FRAME_CHARS + decimal_text(percent as nat).len() + words.len();
                &&& w < taken ==> r == Err::<Frame, TickError>(TickError::TooNarrow)
                &&& w >= taken ==> (r matches Ok(frame) && frame.room == w - taken
                    && frame.percent == percent && frame.remaining@ == words && frame.last == (
                remaining.whole_seconds() == 0))
            },
    {
        let width: usize = match width {
            Some(w) => w as usize,
            None => {
                return Err(TickError::NoTerminalSize);
            },
        };
        let total = self.total();
        if total.num_seconds() == 0 {
            return Err(TickError::NoWholeSecond);
        }
        let percent = percent(&now.since(&self.start), &total);
        let words = format_duration(remaining);
        let mut digits = String::new();
        push_decimal(&mut digits, percent as u64);
        let digits_len = digits.as_str().unicode_len();
        let words_len = words.as_str().unicode_len();
        if digits_len > width || words_len > width || FRAME_CHARS + digits_len > width - words_len {
            return Err(TickError::TooNarrow);
        }
        let room = width - FRAME_CHARS - digits_len - words_len;
        Ok(Frame { room, percent, remaining: words, last: remaining.num_seconds() == 0 })
    }
}

/// Elapsed time as a percentage of the whole.
pub fn percent(elapsed: &Duration, total: &Duration) -> (r: u16)
    requires
        total.whole_seconds() > 0,
    ensures
        r == percent_of(elapsed.whole_seconds(), total.whole_seconds()),
{
    let ratio: i64 = elapsed.num_seconds() * 100 / total.num_seconds();
    let low: i64 = ratio % 0x1_0000;
    if low < 0 {
        (low + 0x1_0000) as u16
    } else {
        low as u16
    }
}

/// Appends `count` times the one character of `unit` to `out`.
fn push_repeated(out: &mut String, unit: &str, count: usize)
    requires
        unit@.len() == 1,
    ensures
        final(out)@ == old(out)@ + repeated(unit@[0], count as int),
{
    let mut done: usize = 0;
    assert(out@ =~= old(out)@ + repeated(unit@[0], 0));
    while done < count
        invariant
            done <= count,
            unit@.len() == 1,
            out@ == old(out)@ + repeated(unit@[0], done as int),
        decreases count - done,
    {
        let ghost before = out@;
        out.append(unit);
        done = done + 1;
        assert(out@ =~= old(out)@ + repeated(unit@[0], done as int));
    }
}

impl Frame {
    /// The line for this tick with `filled` cells of the bar drawn; nothing
    /// where the bar has fewer cells than that.
    pub fn line(&self, filled: usize) -> (r: Option<String>)
        ensures
            r is Some <==> filled <= self.room,
            r matches Some(text) ==> text@ == line_text(
                filled as int,
                self.room as int,
                self.percent as int,
                self.remaining@,
                self.last,
            ),
    {
        if filled > self.room {
            return None;
        }
        proof {
            reveal_strlit("[");
            reveal_strlit("=");
            reveal_strlit(">");
            reveal_strlit(" ");
            reveal_strlit("] ");
            reveal_strlit("% ");
            reveal_strlit("\n");
            reveal_strlit("\r");
        }
        let mut text = String::new();
        text.append("[");
        push_repeated(&mut text, "=", filled);
        text.append(">");
        push_repeated(&mut text, " ", self.room - filled);
        text.append("] ");
        push_decimal(&mut text, self.percent as u64);
        text.append("% ");
        text.append(self.remaining.as_str());
        if self.last {
            text.append("\n");
        } else {
            text.append("\r");
        }
        assert(text@ =~= line_text(
            filled as int,
            self.room as int,
            self.percent as int,
            self.remaining@,
            self.last,
        ));
        Some(text)
    }
}

} // verus!
