//! Air pressure, and the temperature/dewpoint pair.
use vstd::prelude::*;
use vstd::string::StringSliceAdditionalSpecFns;
use crate::data::Data;
use crate::diag::{finish, literal, whole_result};
use crate::error::{ExpectedNext, MetarError};
use crate::lexer::{check_digits, check_slashes, digits_at, is_exactly, number_at, read_number, slashes_at};
use crate::outcome::Outcome;

verus! {

/// Measured air pressure
#[derive(PartialEq, Eq, Copy, Clone, Debug, Hash)]
pub enum Pressure {
    /// Pressure in hectopascals
    Hectopascals(Data<u16>),
    /// Pressure in hundredths of an inch of mercury (`A3012` is 30.12 inHg)
    InchesOfMercury(Data<u16>),
}

/// `Q` or `A`, then four digits or four slashes.
pub open spec fn spec_pressure(t: Seq<u8>) -> Option<Pressure> {
    if t.len() != 5 || !(t[0] == 81 || t[0] == 65) {
        None
    } else {
        let v = if slashes_at(t, 1, 4) {
            Some(Data::Unknown)
        } else if digits_at(t, 1, 4) {
            Some(Data::Known(number_at(t, 1, 4) as u16))
        } else {
            None
        };
        match v {
            Some(d) => if t[0] == 81 {
                Some(Pressure::Hectopascals(d))
            } else {
                Some(Pressure::InchesOfMercury(d))
            },
            None => None,
        }
    }
}

/// A temperature: two slashes, two digits, or `M` and two digits (below zero).
pub open spec fn spec_temperature(u: Seq<u8>) -> Option<Data<i32>> {
    if u == seq![47u8, 47u8] {
        Some(Data::Unknown)
    } else if u.len() == 2 && digits_at(u, 0, 2) {
        Some(Data::Known(number_at(u, 0, 2) as i32))
    } else if u.len() == 3 && u[0] == 77 && digits_at(u, 1, 2) {
        Some(Data::Known(-number_at(u, 1, 2) as i32))
    } else {
        None
    }
}

/// A temperature/dewpoint token `TT/DD`.
pub open spec fn spec_temperatures(t: Seq<u8>) -> Option<(Data<i32>, Data<i32>)> {
    if t.len() >= 3 && t[2] == 47 && spec_temperature(t.subrange(0, 2)) is Some
        && spec_temperature(t.subrange(3, t.len() as int)) is Some {
        Some((spec_temperature(t.subrange(0, 2))->0, spec_temperature(t.subrange(3, t.len() as int))->0))
    } else if t.len() >= 4 && t[3] == 47 && spec_temperature(t.subrange(0, 3)) is Some
        && spec_temperature(t.subrange(4, t.len() as int)) is Some {
        Some((spec_temperature(t.subrange(0, 3))->0, spec_temperature(t.subrange(4, t.len() as int))->0))
    } else {
        None
    }
}

impl Pressure {
    /// Decodes the token `[a, b)` of `s` as a pressure.
    pub fn decode(s: &[u8], a: usize, b: usize) -> (r: Option<Pressure>)
        requires
            a <= b <= s@.len(),
        ensures
            r == spec_pressure(s@.subrange(a as int, b as int)),
    {
        if b - a != 5 || !(s[a] == 81 || s[a] == 65) {
            return None;
        }
        let v = if check_slashes(s, a, b, 1, 4) {
            Data::Unknown
        } else if check_digits(s, a, b, 1, 4) {
            Data::Known(read_number(s, a, b, 1, 4) as u16)
        } else {
            return None;
        };
        if s[a] == 81 {
            Some(Pressure::Hectopascals(v))
        } else {
            Some(Pressure::InchesOfMercury(v))
        }
    }

    /// Parses a whole text as a pressure.
    pub fn parse(input: &str) -> (r: Result<Pressure, Vec<MetarError<'_>>>)
        ensures
            whole_result(
                r,
                match spec_pressure(input.spec_bytes()) {
                    Some(v) => Outcome::Value(v),
                    None => Outcome::NoMatch,
                },
                input,
            ),
    {
        let s = input.as_bytes();
        assert(s@.subrange(0, s@.len() as int) =~= s@);
        let o = match Pressure::decode(s, 0, s.len()) {
            Some(v) => Outcome::Value(v),
            None => Outcome::NoMatch,
        };
        let mut expected: Vec<ExpectedNext> = Vec::new();
        expected.push(literal("Q"));
        expected.push(literal("A"));
        finish(input, o, expected)
    }
}

/// Decodes the bytes `[a, b)` of `s` as one temperature.
pub fn decode_temperature(s: &[u8], a: usize, b: usize) -> (r: Option<Data<i32>>)
    requires
        a <= b <= s@.len(),
    ensures
        r == spec_temperature(s@.subrange(a as int, b as int)),
{
    if is_exactly(s, a, b, &[47, 47]) {
        Some(Data::Unknown)
    } else if b - a == 2 && check_digits(s, a, b, 0, 2) {
        Some(Data::Known(read_number(s, a, b, 0, 2) as i32))
    } else if b - a == 3 && s[a] == 77 && check_digits(s, a, b, 1, 2) {
        let n = read_number(s, a, b, 1, 2) as i32;
        Some(Data::Known(-n))
    } else {
        None
    }
}

/// Decodes the token `[a, b)` of `s` as a temperature/dewpoint pair.
pub fn decode_temperatures(s: &[u8], a: usize, b: usize) -> (r: Option<(Data<i32>, Data<i32>)>)
    requires
        a <= b <= s@.len(),
    ensures
        r == spec_temperatures(s@.subrange(a as int, b as int)),
{
    let ghost t = s@.subrange(a as int, b as int);
    if b - a >= 3 && s[a + 2] == 47 {
        assert(s@.subrange(a as int, a + 2) =~= t.subrange(0, 2));
        assert(s@.subrange(a + 3, b as int) =~= t.subrange(3, t.len() as int));
        if let (Some(x), Some(y)) = (decode_temperature(s, a, a + 2), decode_temperature(s, a + 3, b)) {
            return Some((x, y));
        }
    }
    if b - a >= 4 && s[a + 3] == 47 {
        assert(s@.subrange(a as int, a + 3) =~= t.subrange(0, 3));
        assert(s@.subrange(a + 4, b as int) =~= t.subrange(4, t.len() as int));
        if let (Some(x), Some(y)) = (decode_temperature(s, a, a + 3), decode_temperature(s, a + 4, b)) {
            return Some((x, y));
        }
    }
    None
}

} // verus!
