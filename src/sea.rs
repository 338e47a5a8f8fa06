//! The state of the sea surface: its temperature, and a sea state or a wave height.
use vstd::prelude::*;
use vstd::string::StringSliceAdditionalSpecFns;
use crate::data::Data;
use crate::diag::{finish, literal, whole_result};
use crate::error::{ExpectedNext, MetarError};
use crate::lexer::{check_digits, digits_at, number_at, read_number};
use crate::outcome::Outcome;
use crate::pressure::{decode_temperature, spec_temperature};

verus! {

/// Describes the condition of the sea
#[derive(PartialEq, Eq, Copy, Clone, Debug, Hash)]
pub struct SeaCondition {
    /// Sea temperature
    pub temperature: Data<i32>,
    /// Sea condition
    pub condition: Data<SeaConditionInner>,
}

/// Sea condition
#[derive(PartialEq, Eq, Copy, Clone, Debug, Hash)]
pub enum SeaConditionInner {
    /// Predefined sea state
    State(Data<SeaState>),
    /// Significant wave height in decimetres
    WaveHeight(Data<u32>),
}

/// The state of the sea
#[derive(PartialEq, Eq, Copy, Clone, Debug, Hash)]
pub enum SeaState {
    CalmGlassy,
    CalmRippled,
    Smooth,
    Slight,
    Moderate,
    Rough,
    VeryRough,
    High,
    VeryHigh,
    Phenomenal,
}

pub open spec fn sea_state_of(d: int) -> SeaState {
    if d == 0 {
        SeaState::CalmGlassy
    } else if d == 1 {
        SeaState::CalmRippled
    } else if d == 2 {
        SeaState::Smooth
    } else if d == 3 {
        SeaState::Slight
    } else if d == 4 {
        SeaState::Moderate
    } else if d == 5 {
        SeaState::Rough
    } else if d == 6 {
        SeaState::VeryRough
    } else if d == 7 {
        SeaState::High
    } else if d == 8 {
        SeaState::VeryHigh
    } else {
        SeaState::Phenomenal
    }
}

/// `//`, `S` and a state digit or `/`, or `H` and one to three digits or `//`.
pub open spec fn spec_sea_inner(u: Seq<u8>) -> Option<Data<SeaConditionInner>> {
    if u == seq![47u8, 47u8] {
        Some(Data::Unknown)
    } else if u.len() == 2 && u[0] == 83 && u[1] == 47 {
        Some(Data::Known(SeaConditionInner::State(Data::Unknown)))
    } else if u.len() == 2 && u[0] == 83 && digits_at(u, 1, 1) {
        Some(Data::Known(SeaConditionInner::State(Data::Known(sea_state_of(number_at(u, 1, 1))))))
    } else if u == seq![72u8, 47u8, 47u8] {
        Some(Data::Known(SeaConditionInner::WaveHeight(Data::Unknown)))
    } else if 2 <= u.len() <= 4 && u[0] == 72 && digits_at(u, 1, u.len() - 1) {
        Some(Data::Known(SeaConditionInner::WaveHeight(Data::Known(number_at(u, 1, u.len() - 1) as u32))))
    } else {
        None
    }
}

/// `W`, a temperature, `/`, and the sea state or wave height.
pub open spec fn spec_sea(t: Seq<u8>) -> Option<SeaCondition> {
    if t.len() < 4 || t[0] != 87 {
        None
    } else if t[3] == 47 && spec_temperature(t.subrange(1, 3)) is Some
        && spec_sea_inner(t.subrange(4, t.len() as int)) is Some {
        Some(SeaCondition {
            temperature: spec_temperature(t.subrange(1, 3))->0,
            condition: spec_sea_inner(t.subrange(4, t.len() as int))->0,
        })
    } else if t.len() >= 5 && t[4] == 47 && spec_temperature(t.subrange(1, 4)) is Some
        && spec_sea_inner(t.subrange(5, t.len() as int)) is Some {
        Some(SeaCondition {
            temperature: spec_temperature(t.subrange(1, 4))->0,
            condition: spec_sea_inner(t.subrange(5, t.len() as int))->0,
        })
    } else {
        None
    }
}

fn sea_state(d: u32) -> (r: SeaState)
    ensures
        r == sea_state_of(d as int),
{
    if d == 0 {
        SeaState::CalmGlassy
    } else if d == 1 {
        SeaState::CalmRippled
    } else if d == 2 {
        SeaState::Smooth
    } else if d == 3 {
        SeaState::Slight
    } else if d == 4 {
        SeaState::Moderate
    } else if d == 5 {
        SeaState::Rough
    } else if d == 6 {
        SeaState::VeryRough
    } else if d == 7 {
        SeaState::High
    } else if d == 8 {
        SeaState::VeryHigh
    } else {
        SeaState::Phenomenal
    }
}

fn decode_sea_inner(s: &[u8], a: usize, b: usize) -> (r: Option<Data<SeaConditionInner>>)
    requires
        a <= b <= s@.len(),
    ensures
        r == spec_sea_inner(s@.subrange(a as int, b as int)),
{
    let ghost u = s@.subrange(a as int, b as int);
    let n = b - a;
    if n == 2 && s[a] == 47 && s[a + 1] == 47 {
        assert(u =~= seq![47u8, 47u8]);
        return Some(Data::Unknown);
    }
    assert(u != seq![47u8, 47u8]) by {
        if u == seq![47u8, 47u8] {
            assert(u[0] == 47u8 && u[1] == 47u8);
        }
    }
    if n == 2 && s[a] == 83 && s[a + 1] == 47 {
        return Some(Data::Known(SeaConditionInner::State(Data::Unknown)));
    }
    if n == 2 && s[a] == 83 && check_digits(s, a, b, 1, 1) {
        let d = read_number(s, a, b, 1, 1);
        return Some(Data::Known(SeaConditionInner::State(Data::Known(sea_state(d)))));
    }
    if n == 3 && s[a] == 72 && s[a + 1] == 47 && s[a + 2] == 47 {
        assert(u =~= seq![72u8, 47u8, 47u8]);
        return Some(Data::Known(SeaConditionInner::WaveHeight(Data::Unknown)));
    }
    assert(u != seq![72u8, 47u8, 47u8]) by {
        if u == seq![72u8, 47u8, 47u8] {
            assert(u[0] == 72u8 && u[1] == 47u8 && u[2] == 47u8);
        }
    }
    if 2 <= n && n <= 4 && s[a] == 72 && check_digits(s, a, b, 1, n - 1) {
        let h = read_number(s, a, b, 1, n - 1);
        return Some(Data::Known(SeaConditionInner::WaveHeight(Data::Known(h))));
    }
    None
}

impl SeaCondition {
    /// Decodes the token `[a, b)` of `s` as a sea condition.
    pub fn decode(s: &[u8], a: usize, b: usize) -> (r: Option<SeaCondition>)
        requires
            a <= b <= s@.len(),
        ensures
            r == spec_sea(s@.subrange(a as int, b as int)),
    {
        let ghost t = s@.subrange(a as int, b as int);
        if b - a < 4 || s[a] != 87 {
            return None;
        }
        if s[a + 3] == 47 {
            assert(s@.subrange(a + 1, a + 3) =~= t.subrange(1, 3));
            assert(s@.subrange(a + 4, b as int) =~= t.subrange(4, t.len() as int));
            if let (Some(temperature), Some(condition)) = (decode_temperature(s, a + 1, a + 3), decode_sea_inner(s, a + 4, b)) {
                return Some(SeaCondition { temperature, condition });
            }
        }
        if b - a >= 5 && s[a + 4] == 47 {
            assert(s@.subrange(a + 1, a + 4) =~= t.subrange(1, 4));
            assert(s@.subrange(a + 5, b as int) =~= t.subrange(5, t.len() as int));
            if let (Some(temperature), Some(condition)) = (decode_temperature(s, a + 1, a + 4), decode_sea_inner(s, a + 5, b)) {
                return Some(SeaCondition { temperature, condition });
            }
        }
        None
    }

    /// Parses a whole text as a sea condition.
    pub fn parse(input: &str) -> (r: Result<SeaCondition, Vec<MetarError<'_>>>)
        ensures
            whole_result(
                r,
                match spec_sea(input.spec_bytes()) {
                    Some(v) => Outcome::Value(v),
                    None => Outcome::NoMatch,
                },
                input,
            ),
    {
        let s = input.as_bytes();
        assert(s@.subrange(0, s@.len() as int) =~= s@);
        let o = match SeaCondition::decode(s, 0, s.len()) {
            Some(v) => Outcome::Value(v),
            None => Outcome::NoMatch,
        };
        let mut expected: Vec<ExpectedNext> = Vec::new();
        expected.push(literal("W"));
        finish(input, o, expected)
    }
}

} // verus!
