//! The observation time group: day of month, hour and minute, in UTC.
use vstd::prelude::*;
use vstd::string::StringSliceAdditionalSpecFns;
use crate::diag::{finish, whole_result};
use crate::error::{ExpectedNext, MetarError};
use crate::lexer::{check_digits, digits_at, number_at, read_number};
use crate::outcome::{FieldError, Outcome};

verus! {

/// The time of a METAR
#[derive(PartialEq, Eq, Copy, Clone, Debug, Hash)]
pub struct Time {
    /// The day of the month the METAR was made
    pub date: u8,
    /// The hour the METAR was made
    pub hour: u8,
    /// The minute the METAR was made
    pub minute: u8,
}

/// Six digits and a `Z`.
pub open spec fn time_shape(t: Seq<u8>) -> bool {
    t.len() == 7 && digits_at(t, 0, 6) && t[6] == 90
}

/// What the text `ddhhmmZ` decodes to.
pub open spec fn spec_time(t: Seq<u8>) -> Outcome<Time> {
    if !time_shape(t) {
        Outcome::NoMatch
    } else if number_at(t, 0, 2) > 31 {
        Outcome::Invalid(FieldError::InvalidDate)
    } else if number_at(t, 2, 2) >= 24 {
        Outcome::Invalid(FieldError::InvalidHour)
    } else if number_at(t, 4, 2) >= 60 {
        Outcome::Invalid(FieldError::InvalidMinute)
    } else {
        Outcome::Value(
            Time {
                date: number_at(t, 0, 2) as u8,
                hour: number_at(t, 2, 2) as u8,
                minute: number_at(t, 4, 2) as u8,
            },
        )
    }
}

impl Time {
    /// Decodes the bytes `[a, b)` of `s` as an observation time.
    pub fn decode(s: &[u8], a: usize, b: usize) -> (r: Outcome<Time>)
        requires
            a <= b <= s@.len(),
        ensures
            r == spec_time(s@.subrange(a as int, b as int)),
    {
        let ghost t = s@.subrange(a as int, b as int);
        if b - a != 7 || !check_digits(s, a, b, 0, 6) || s[a + 6] != 90 {
            return Outcome::NoMatch;
        }
        assert(digits_at(t, 0, 2) && digits_at(t, 2, 2) && digits_at(t, 4, 2));
        let date = read_number(s, a, b, 0, 2);
        let hour = read_number(s, a, b, 2, 2);
        let minute = read_number(s, a, b, 4, 2);
        if date > 31 {
            Outcome::Invalid(FieldError::InvalidDate)
        } else if hour >= 24 {
            Outcome::Invalid(FieldError::InvalidHour)
        } else if minute >= 60 {
            Outcome::Invalid(FieldError::InvalidMinute)
        } else {
            Outcome::Value(Time { date: date as u8, hour: hour as u8, minute: minute as u8 })
        }
    }

    /// Parses a whole text as an observation time.
    pub fn parse(input: &str) -> (r: Result<Time, Vec<MetarError<'_>>>)
        ensures
            whole_result(r, spec_time(input.spec_bytes()), input),
    {
        let s = input.as_bytes();
        let o = Time::decode(s, 0, s.len());
        assert(s@.subrange(0, s@.len() as int) =~= s@);
        let mut expected: Vec<ExpectedNext> = Vec::new();
        expected.push(ExpectedNext::Digits);
        finish(input, o, expected)
    }
}

} // verus!
