//! Why a target hour is refused, and the words that say so.

use vstd::prelude::*;
use vstd::string::*;
use crate::number::NumberError;

verus! {

/// Why a text names no target.
#[derive(Clone, Copy, Debug, PartialEq, Eq, Structural)]
pub enum HourError {
    /// The hour field is not a number.
    InvalidHour,
    /// The minute field is not a number; the reason is kept for the message.
    InvalidMinute(NumberError),
    /// The second field is not a number.
    InvalidSecond,
    /// The local calendar holds this time of day twice today.
    Ambiguous,
    /// The local calendar holds no such time of day today.
    NoDatetime,
}

/// The words for a `NumberError`.
pub open spec fn number_error_text(e: NumberError) -> Seq<char> {
    match e {
        NumberError::Empty => "cannot parse integer from empty string"@,
        NumberError::InvalidDigit => "invalid digit found in string"@,
        NumberError::TooLarge => "number too large to fit in target type"@,
    }
}

/// The words for an `HourError`.
pub open spec fn hour_error_text(e: HourError) -> Seq<char> {
    match e {
        HourError::InvalidHour => "Invalid hour"@,
        HourError::InvalidMinute(reason) => "Invalid minute: "@ + number_error_text(reason),
        HourError::InvalidSecond => "Invalid second"@,
        HourError::Ambiguous => "Ambiguous hour"@,
        HourError::NoDatetime => "No datetime can be created"@,
    }
}

impl NumberError {
    /// The reason in words.
    pub fn message(&self) -> (r: &'static str)
        ensures
            r@ == number_error_text(*self),
    {
        match self {
            NumberError::Empty => "cannot parse integer from empty string",
            NumberError::InvalidDigit => "invalid digit found in string",
            NumberError::TooLarge => "number too large to fit in target type",
        }
    }
}

impl HourError {
    /// The refusal in words, as shown to the user.
    pub fn message(&self) -> (r: String)
        ensures
            r@ == hour_error_text(*self),
    {
        match self {
            HourError::InvalidHour => "Invalid hour".to_owned(),
            HourError::InvalidMinute(reason) => {
                let mut text = "Invalid minute: ".to_owned();
                text.append(reason.message());
                text
            },
            HourError::InvalidSecond => "Invalid second".to_owned(),
            HourError::Ambiguous => "Ambiguous hour".to_owned(),
            HourError::NoDatetime => "No datetime can be created".to_owned(),
        }
    }
}

} // verus!
