//! Reading an unsigned decimal number: an optional `+`, then digits, with a
//! value that fits in 32 bits.

use vstd::prelude::*;

verus! {

/// Why a text is not a number.
#[derive(Clone, Copy, Debug, PartialEq, Eq, Structural)]
pub enum NumberError {
    /// The text is empty.
    Empty,
    /// A character is not a digit, or a sign stands alone.
    InvalidDigit,
    /// The digits read so far already exceed `u32::MAX`.
    TooLarge,
}

pub open spec fn is_digit(c: char) -> bool {
    '0' <= c <= '9'
}

pub open spec fn digit_value(c: char) -> nat
    recommends
        is_digit(c),
{
    (c as nat - '0' as nat) as nat
}

pub open spec fn all_digits(s: Seq<char>) -> bool {
    forall|i: int| 0 <= i < s.len() ==> is_digit(#[trigger] s[i])
}

/// The number that a sequence of digits writes; the empty sequence writes 0.
pub open spec fn digits_value(s: Seq<char>) -> nat
    decreases s.len(),
{
    if s.len() == 0 {
        0
    } else {
        10 * digits_value(s.drop_last()) + digit_value(s.last())
    }
}

/// Some run of digits at the start of `s` already writes more than `u32::MAX`.
pub open spec fn overflows_early(s: Seq<char>) -> bool {
    exists|n: int|
        0 <= n <= s.len() && all_digits(#[trigger] s.take(n)) && digits_value(s.take(n))
            > u32::MAX
}

/// The text without a leading `+`.
pub open spec fn unsigned_part(text: Seq<char>) -> Seq<char> {
    if text.len() > 0 && text[0] == '+' {
        text.skip(1)
    } else {
        text
    }
}

/// What a text reads as. Reading goes left to right and stops at the first
/// fault, so a number that grows too large before a foreign character is
/// met is `TooLarge`, not `InvalidDigit`.
pub open spec fn number_of(text: Seq<char>) -> Result<u32, NumberError> {
    let digits = unsigned_part(text);
    if text.len() == 0 {
        Err(NumberError::Empty)
    } else if digits.len() == 0 {
        Err(NumberError::InvalidDigit)
    } else if overflows_early(digits) {
        Err(NumberError::TooLarge)
    } else if !all_digits(digits) {
        Err(NumberError::InvalidDigit)
    } else {
        Ok(digits_value(digits) as u32)
    }
}

/// Dropping the last of `n + 1` leading characters leaves the first `n`.
proof fn lemma_take_step(s: Seq<char>, n: int)
    requires
        0 <= n < s.len(),
    ensures
        s.take(n + 1).drop_last() == s.take(n),
        s.take(n + 1).last() == s[n],
{
    assert(s.take(n + 1).drop_last() =~= s.take(n));
}

/// Reads the characters of `chars` from `from` up to `to` as a number.
pub fn read_number(chars: &Vec<char>, from: usize, to: usize) -> (r: Result<u32, NumberError>)
    requires
        from <= to <= chars.len(),
    ensures
        r == number_of(chars@.subrange(from as int, to as int)),
{
    let ghost text = chars@.subrange(from as int, to as int);
    if from == to {
        return Err(NumberError::Empty);
    }
    let start: usize = if chars[from] == '+' {
        from + 1
    } else {
        from
    };
    let ghost digits = chars@.subrange(start as int, to as int);
    assert(digits =~= unsigned_part(text));
    if start == to {
        return Err(NumberError::InvalidDigit);
    }
    let mut value: u64 = 0;
    let mut i: usize = start;
    assert(digits.take(0) =~= Seq::<char>::empty());
    while i < to
        invariant
            from < to <= chars.len(),
            start <= i <= to,
            start < to,
            digits == chars@.subrange(start as int, to as int),
            digits == unsigned_part(chars@.subrange(from as int, to as int)),
            all_digits(digits.take(i - start)),
            value == digits_value(digits.take(i - start)),
            value <= u32::MAX,
            forall|n: int| 0 <= n <= i - start ==> digits_value(#[trigger] digits.take(n)) <= u32::MAX,
        decreases to - i,
    {
        let c = chars[i];
        let ghost k = i - start;
        assert(digits[k] == c);
        proof {
            lemma_take_step(digits, k);
        }
        if !(c >= '0' && c <= '9') {
            assert(!overflows_early(digits)) by {
                assert forall|n: int|
                    0 <= n <= digits.len() && all_digits(#[trigger] digits.take(n)) implies digits_value(
                    digits.take(n),
                ) <= u32::MAX by {
                    if n > k {
                        assert(digits.take(n)[k] == digits[k]);
                    }
                }
            }
            return Err(NumberError::InvalidDigit);
        }
        let next: u64 = value * 10 + (c as u64 - '0' as u64);
        assert(next == digits_value(digits.take(k + 1)));
        assert(all_digits(digits.take(k + 1))) by {
            assert forall|j: int| 0 <= j < k + 1 implies is_digit(#[trigger] digits.take(k + 1)[j]) by {
                if j < k {
                    assert(digits.take(k)[j] == digits[j]);
                }
            }
        }
        if next > 0xffff_ffff {
            assert(overflows_early(digits));
            return Err(NumberError::TooLarge);
        }
        value = next;
        i = i + 1;
    }
    assert(digits.take(digits.len() as int) =~= digits);
    assert(!overflows_early(digits));
    Ok(value as u32)
}

} // verus!
