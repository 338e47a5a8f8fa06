//! Wind: direction, speed with its unit, gusts, and the range the
//! direction varies over.
use vstd::prelude::*;
use vstd::string::StringSliceAdditionalSpecFns;
use crate::data::Data;
use crate::diag::{finish, literal, whole_result};
use crate::error::{ExpectedNext, MetarError};
use crate::lexer::{anchored, 
    check_digits, digits_at, ends_with, is_exactly, next_tok, number_at, read_number,
    token, find_tok_end, find_skip_ws, lemma_next_tok_bounds,
};
use crate::outcome::{FieldError, Outcome};

verus! {

/// A representation of wind direction
#[derive(PartialEq, Eq, Copy, Clone, Debug, Hash)]
pub enum WindDirection {
    /// A heading defining wind direction
    Heading(Data<u32>),
    /// Wind direction is variable
    Variable,
}

/// The wind speed
#[derive(PartialEq, Eq, Copy, Clone, Debug, Hash)]
pub enum WindSpeed {
    /// Nautical miles per hour
    Knots {
        /// The wind speed
        speed: Data<u32>,
        /// The wind gusts speed
        gusting: Option<Data<u32>>,
    },
    /// Metres per second
    MetresPerSecond {
        /// The wind speed
        speed: Data<u32>,
        /// The wind gusts speed
        gusting: Option<Data<u32>>,
    },
    /// Kilometres per hour
    KilometresPerHour {
        /// The wind speed
        speed: Data<u32>,
        /// The wind gusts speed
        gusting: Option<Data<u32>>,
    },
    /// Wind speed is greater than 100 knots, 100 m/s or 200 kph
    Greater,
}

/// Wind information.
#[derive(PartialEq, Eq, Copy, Clone, Debug, Hash)]
pub enum Wind {
    /// Calm winds are at 0 kts
    Calm,
    /// Winds are present.
    Present {
        /// The wind direction, in degrees
        dir: WindDirection,
        /// The current wind speed
        speed: WindSpeed,
        /// The directions the wind is varying between
        varying: Option<(Data<u32>, Data<u32>)>,
    },
}

/// Three slashes or three digits of a heading of at most 360 degrees.
pub open spec fn spec_heading(d: Seq<u8>) -> Outcome<Data<u32>> {
    if d == seq![47u8, 47u8, 47u8] {
        Outcome::Value(Data::Unknown)
    } else if d.len() == 3 && digits_at(d, 0, 3) {
        if number_at(d, 0, 3) > 360 {
            Outcome::Invalid(FieldError::InvalidWindHeading)
        } else {
            Outcome::Value(Data::Known(number_at(d, 0, 3) as u32))
        }
    } else {
        Outcome::NoMatch
    }
}

/// `VRB`, or a heading.
pub open spec fn spec_direction(d: Seq<u8>) -> Outcome<WindDirection> {
    if d == seq![86u8, 82u8, 66u8] {
        Outcome::Value(WindDirection::Variable)
    } else {
        match spec_heading(d) {
            Outcome::Value(h) => Outcome::Value(WindDirection::Heading(h)),
            Outcome::Invalid(f) => Outcome::Invalid(f),
            Outcome::NoMatch => Outcome::NoMatch,
        }
    }
}

/// The gust part of a speed: nothing, `G//`, or `G` and `n` digits.
pub open spec fn spec_gust(g: Seq<u8>, n: int) -> Option<Option<Data<u32>>> {
    if g.len() == 0 {
        Some(None)
    } else if g == seq![71u8, 47u8, 47u8] {
        Some(Some(Data::Unknown))
    } else if g.len() == n + 1 && g[0] == 71 && digits_at(g, 1, n) {
        Some(Some(Data::Known(number_at(g, 1, n) as u32)))
    } else {
        None
    }
}

/// `n` digits, a gust part and the unit `unit`.
pub open spec fn spec_speed_in(u: Seq<u8>, n: int, unit: Seq<u8>) -> Option<(Data<u32>, Option<Data<u32>>)> {
    if u.len() >= n + unit.len() && digits_at(u, 0, n)
        && u.subrange(u.len() - unit.len(), u.len() as int) == unit
        && spec_gust(u.subrange(n, u.len() - unit.len()), n) is Some {
        Some((Data::Known(number_at(u, 0, n) as u32), spec_gust(u.subrange(n, u.len() - unit.len()), n)->0))
    } else {
        None
    }
}

pub open spec fn lit_kt() -> Seq<u8> {
    seq![75u8, 84u8]
}

pub open spec fn lit_mps() -> Seq<u8> {
    seq![77u8, 80u8, 83u8]
}

pub open spec fn lit_kph() -> Seq<u8> {
    seq![75u8, 80u8, 72u8]
}

/// What the speed part of a wind group decodes to.
pub open spec fn spec_speed(u: Seq<u8>) -> Option<WindSpeed> {
    if u == seq![80u8, 57u8, 57u8] + lit_kt() || u == seq![80u8, 57u8, 57u8] + lit_mps()
        || u == seq![80u8, 49u8, 57u8, 57u8] + lit_kph() {
        Some(WindSpeed::Greater)
    } else if u == seq![47u8, 47u8] + lit_kt() {
        Some(WindSpeed::Knots { speed: Data::Unknown, gusting: None })
    } else if u == seq![47u8, 47u8] + lit_mps() {
        Some(WindSpeed::MetresPerSecond { speed: Data::Unknown, gusting: None })
    } else if u == seq![47u8, 47u8] + lit_kph() {
        Some(WindSpeed::KilometresPerHour { speed: Data::Unknown, gusting: None })
    } else {
        match (spec_speed_in(u, 2, lit_kt()), spec_speed_in(u, 2, lit_mps()), spec_speed_in(u, 3, lit_kph())) {
            (Some((speed, gusting)), _, _) => Some(WindSpeed::Knots { speed, gusting }),
            (None, Some((speed, gusting)), _) => Some(WindSpeed::MetresPerSecond { speed, gusting }),
            (None, None, Some((speed, gusting))) => Some(WindSpeed::KilometresPerHour { speed, gusting }),
            (None, None, None) => None,
        }
    }
}

/// What one wind token decodes to (without the varying range).
pub open spec fn spec_wind_token(t: Seq<u8>) -> Outcome<Wind> {
    if t == seq![67u8, 65u8, 76u8, 77u8] {
        Outcome::Value(Wind::Calm)
    } else if t.len() < 3 || spec_speed(t.subrange(3, t.len() as int)) is None {
        Outcome::NoMatch
    } else {
        match spec_direction(t.subrange(0, 3)) {
            Outcome::Value(dir) => Outcome::Value(
                Wind::Present { dir, speed: spec_speed(t.subrange(3, t.len() as int))->0, varying: None },
            ),
            Outcome::Invalid(f) => Outcome::Invalid(f),
            Outcome::NoMatch => Outcome::NoMatch,
        }
    }
}

/// What a varying token `dddVddd` decodes to.
pub open spec fn spec_varying(t: Seq<u8>) -> Outcome<(Data<u32>, Data<u32>)> {
    if t.len() != 7 || t[3] != 86 {
        Outcome::NoMatch
    } else {
        match (spec_heading(t.subrange(0, 3)), spec_heading(t.subrange(4, 7))) {
            (Outcome::Value(from), Outcome::Value(to)) => Outcome::Value((from, to)),
            (Outcome::NoMatch, _) => Outcome::NoMatch,
            (_, Outcome::NoMatch) => Outcome::NoMatch,
            _ => Outcome::Invalid(FieldError::InvalidWindHeading),
        }
    }
}

/// The wind group at `p`, with the varying token after it if there is one,
/// and where the text after it starts (for a value), or where the offending
/// token starts (for a failed check).
pub open spec fn spec_wind_at(s: Seq<u8>, p: int) -> (Outcome<Wind>, int) {
    let q = next_tok(s, p);
    match spec_wind_token(token(s, p)) {
        Outcome::Value(Wind::Present { dir, speed, .. }) => match spec_varying(token(s, q)) {
            Outcome::Value(v) => (Outcome::Value(Wind::Present { dir, speed, varying: Some(v) }), next_tok(s, q)),
            Outcome::Invalid(f) => (Outcome::Invalid(f), q),
            Outcome::NoMatch => (Outcome::Value(Wind::Present { dir, speed, varying: None }), q),
        },
        Outcome::Value(Wind::Calm) => (Outcome::Value(Wind::Calm), q),
        Outcome::Invalid(f) => (Outcome::Invalid(f), p),
        Outcome::NoMatch => (Outcome::NoMatch, p),
    }
}

/// A whole text that is one wind group and nothing more.
pub open spec fn spec_wind_text(s: Seq<u8>) -> Outcome<Wind> {
    let (o, e) = spec_wind_at(s, 0);
    if o is Value && e != s.len() {
        Outcome::NoMatch
    } else {
        o
    }
}

fn decode_heading(s: &[u8], a: usize, b: usize) -> (r: Outcome<Data<u32>>)
    requires
        a <= b <= s@.len(),
    ensures
        r == spec_heading(s@.subrange(a as int, b as int)),
{
    if is_exactly(s, a, b, &[47, 47, 47]) {
        Outcome::Value(Data::Unknown)
    } else if b - a == 3 && check_digits(s, a, b, 0, 3) {
        let n = read_number(s, a, b, 0, 3);
        if n > 360 {
            Outcome::Invalid(FieldError::InvalidWindHeading)
        } else {
            Outcome::Value(Data::Known(n))
        }
    } else {
        Outcome::NoMatch
    }
}

fn decode_gust(s: &[u8], a: usize, b: usize, n: usize) -> (r: Option<Option<Data<u32>>>)
    requires
        a <= b <= s@.len(),
        n <= 3,
    ensures
        r == spec_gust(s@.subrange(a as int, b as int), n as int),
{
    if b == a {
        Some(None)
    } else if is_exactly(s, a, b, &[71, 47, 47]) {
        Some(Some(Data::Unknown))
    } else if b - a == n + 1 && s[a] == 71 && check_digits(s, a, b, 1, n) {
        Some(Some(Data::Known(read_number(s, a, b, 1, n))))
    } else {
        None
    }
}

fn decode_speed_in(s: &[u8], a: usize, b: usize, n: usize, unit: &[u8]) -> (r: Option<(Data<u32>, Option<Data<u32>>)>)
    requires
        a <= b <= s@.len(),
        n <= 3,
    ensures
        r == spec_speed_in(s@.subrange(a as int, b as int), n as int, unit@),
{
    let ghost u = s@.subrange(a as int, b as int);
    if b - a < n || b - a - n < unit.len() {
        return None;
    }
    assert(s@.subrange(b - unit@.len(), b as int) =~= u.subrange(u.len() - unit@.len(), u.len() as int));
    if !check_digits(s, a, b, 0, n) || !ends_with(s, a, b, unit) {
        return None;
    }
    let e = b - unit.len();
    assert(s@.subrange(a + n, e as int) =~= u.subrange(n as int, u.len() - unit@.len()));
    match decode_gust(s, a + n, e, n) {
        Some(g) => Some((Data::Known(read_number(s, a, b, 0, n)), g)),
        None => None,
    }
}

impl WindSpeed {
    /// Decodes the bytes `[a, b)` of `s` as the speed part of a wind group.
    pub fn decode(s: &[u8], a: usize, b: usize) -> (r: Option<WindSpeed>)
        requires
            a <= b <= s@.len(),
        ensures
            r == spec_speed(s@.subrange(a as int, b as int)),
    {
        let ghost u = s@.subrange(a as int, b as int);
        assert(seq![80u8, 57u8, 57u8] + lit_kt() =~= seq![80u8, 57u8, 57u8, 75u8, 84u8]);
        assert(seq![80u8, 57u8, 57u8] + lit_mps() =~= seq![80u8, 57u8, 57u8, 77u8, 80u8, 83u8]);
        assert(seq![80u8, 49u8, 57u8, 57u8] + lit_kph() =~= seq![80u8, 49u8, 57u8, 57u8, 75u8, 80u8, 72u8]);
        assert(seq![47u8, 47u8] + lit_kt() =~= seq![47u8, 47u8, 75u8, 84u8]);
        assert(seq![47u8, 47u8] + lit_mps() =~= seq![47u8, 47u8, 77u8, 80u8, 83u8]);
        assert(seq![47u8, 47u8] + lit_kph() =~= seq![47u8, 47u8, 75u8, 80u8, 72u8]);
        if is_exactly(s, a, b, &[80, 57, 57, 75, 84]) || is_exactly(s, a, b, &[80, 57, 57, 77, 80, 83])
            || is_exactly(s, a, b, &[80, 49, 57, 57, 75, 80, 72]) {
            return Some(WindSpeed::Greater);
        }
        if is_exactly(s, a, b, &[47, 47, 75, 84]) {
            return Some(WindSpeed::Knots { speed: Data::Unknown, gusting: None });
        }
        if is_exactly(s, a, b, &[47, 47, 77, 80, 83]) {
            return Some(WindSpeed::MetresPerSecond { speed: Data::Unknown, gusting: None });
        }
        if is_exactly(s, a, b, &[47, 47, 75, 80, 72]) {
            return Some(WindSpeed::KilometresPerHour { speed: Data::Unknown, gusting: None });
        }
        let kt: [u8; 2] = [75, 84];
        let mps: [u8; 3] = [77, 80, 83];
        let kph: [u8; 3] = [75, 80, 72];
        assert(kt@ == lit_kt() && mps@ == lit_mps() && kph@ == lit_kph());
        if let Some((speed, gusting)) = decode_speed_in(s, a, b, 2, &kt) {
            return Some(WindSpeed::Knots { speed, gusting });
        }
        if let Some((speed, gusting)) = decode_speed_in(s, a, b, 2, &mps) {
            return Some(WindSpeed::MetresPerSecond { speed, gusting });
        }
        if let Some((speed, gusting)) = decode_speed_in(s, a, b, 3, &kph) {
            return Some(WindSpeed::KilometresPerHour { speed, gusting });
        }
        None
    }

    /// Parses a whole text as the speed part of a wind group.
    pub fn parse(input: &str) -> (r: Result<WindSpeed, Vec<MetarError<'_>>>)
        ensures
            whole_result(
                r,
                match spec_speed(input.spec_bytes()) {
                    Some(v) => Outcome::Value(v),
                    None => Outcome::NoMatch,
                },
                input,
            ),
    {
        let s = input.as_bytes();
        assert(s@.subrange(0, s@.len() as int) =~= s@);
        let o = match WindSpeed::decode(s, 0, s.len()) {
            Some(v) => Outcome::Value(v),
            None => Outcome::NoMatch,
        };
        let mut expected: Vec<ExpectedNext> = Vec::new();
        expected.push(ExpectedNext::Digits);
        expected.push(literal("P"));
        expected.push(literal("/"));
        finish(input, o, expected)
    }
}

impl WindDirection {
    /// Decodes the bytes `[a, b)` of `s` as a wind direction.
    pub fn decode(s: &[u8], a: usize, b: usize) -> (r: Outcome<WindDirection>)
        requires
            a <= b <= s@.len(),
        ensures
            r == spec_direction(s@.subrange(a as int, b as int)),
    {
        if is_exactly(s, a, b, &[86, 82, 66]) {
            return Outcome::Value(WindDirection::Variable);
        }
        match decode_heading(s, a, b) {
            Outcome::Value(h) => Outcome::Value(WindDirection::Heading(h)),
            Outcome::Invalid(f) => Outcome::Invalid(f),
            Outcome::NoMatch => Outcome::NoMatch,
        }
    }

    /// The heading of a direction that is not variable.
    pub fn unwrap_heading(self) -> (r: Data<u32>)
        requires
            self is Heading,
        ensures
            self == WindDirection::Heading(r),
    {
        match self {
            WindDirection::Heading(h) => h,
            WindDirection::Variable => unreached(),
        }
    }

    /// Parses a whole text as a wind direction.
    pub fn parse(input: &str) -> (r: Result<WindDirection, Vec<MetarError<'_>>>)
        ensures
            whole_result(r, spec_direction(input.spec_bytes()), input),
    {
        let s = input.as_bytes();
        assert(s@.subrange(0, s@.len() as int) =~= s@);
        let o = WindDirection::decode(s, 0, s.len());
        let mut expected: Vec<ExpectedNext> = Vec::new();
        expected.push(literal("VRB"));
        expected.push(literal("///"));
        expected.push(ExpectedNext::Digits);
        finish(input, o, expected)
    }
}

/// Decodes the token `[a, b)` of `s` as a wind group without its varying range.
pub fn decode_wind_token(s: &[u8], a: usize, b: usize) -> (r: Outcome<Wind>)
    requires
        a <= b <= s@.len(),
    ensures
        r == spec_wind_token(s@.subrange(a as int, b as int)),
{
    let ghost t = s@.subrange(a as int, b as int);
    if is_exactly(s, a, b, &[67, 65, 76, 77]) {
        return Outcome::Value(Wind::Calm);
    }
    if b - a < 3 {
        return Outcome::NoMatch;
    }
    assert(s@.subrange(a + 3, b as int) =~= t.subrange(3, t.len() as int));
    assert(s@.subrange(a as int, a + 3) =~= t.subrange(0, 3));
    match WindSpeed::decode(s, a + 3, b) {
        None => Outcome::NoMatch,
        Some(speed) => match WindDirection::decode(s, a, a + 3) {
            Outcome::Value(dir) => Outcome::Value(Wind::Present { dir, speed, varying: None }),
            Outcome::Invalid(f) => Outcome::Invalid(f),
            Outcome::NoMatch => Outcome::NoMatch,
        },
    }
}

/// Decodes the token `[a, b)` of `s` as a varying range `dddVddd`.
pub fn decode_varying(s: &[u8], a: usize, b: usize) -> (r: Outcome<(Data<u32>, Data<u32>)>)
    requires
        a <= b <= s@.len(),
    ensures
        r == spec_varying(s@.subrange(a as int, b as int)),
{
    let ghost t = s@.subrange(a as int, b as int);
    if b - a != 7 || s[a + 3] != 86 {
        return Outcome::NoMatch;
    }
    assert(s@.subrange(a as int, a + 3) =~= t.subrange(0, 3));
    assert(s@.subrange(a + 4, a + 7) =~= t.subrange(4, 7));
    match (decode_heading(s, a, a + 3), decode_heading(s, a + 4, a + 7)) {
        (Outcome::Value(from), Outcome::Value(to)) => Outcome::Value((from, to)),
        (Outcome::NoMatch, _) => Outcome::NoMatch,
        (_, Outcome::NoMatch) => Outcome::NoMatch,
        _ => Outcome::Invalid(FieldError::InvalidWindHeading),
    }
}

/// The wind group at `p` of `s`, with its varying range; see [`spec_wind_at`].
pub fn decode_wind_at(s: &[u8], p: usize) -> (r: (Outcome<Wind>, usize))
    requires
        anchored(s@, p as int),
        p <= s@.len(),
    ensures
        anchored(s@, r.1 as int),
        r.0 == spec_wind_at(s@, p as int).0,
        r.1 == spec_wind_at(s@, p as int).1,
        p <= r.1 <= s@.len(),
{
    proof {
        lemma_next_tok_bounds(s@, p as int);
    }
    let e = find_tok_end(s, p);
    let q = find_skip_ws(s, e);
    match decode_wind_token(s, p, e) {
        Outcome::Value(Wind::Present { dir, speed, .. }) => {
            proof {
                lemma_next_tok_bounds(s@, q as int);
            }
            let e2 = find_tok_end(s, q);
            match decode_varying(s, q, e2) {
                Outcome::Value(v) => {
                    let q2 = find_skip_ws(s, e2);
                    (Outcome::Value(Wind::Present { dir, speed, varying: Some(v) }), q2)
                },
                Outcome::Invalid(f) => (Outcome::Invalid(f), q),
                Outcome::NoMatch => (Outcome::Value(Wind::Present { dir, speed, varying: None }), q),
            }
        },
        Outcome::Value(Wind::Calm) => (Outcome::Value(Wind::Calm), q),
        Outcome::Invalid(f) => (Outcome::Invalid(f), p),
        Outcome::NoMatch => (Outcome::NoMatch, p),
    }
}

impl Wind {
    /// Parses a whole text as a wind group, with its varying range if given.
    pub fn parse(input: &str) -> (r: Result<Wind, Vec<MetarError<'_>>>)
        ensures
            whole_result(r, spec_wind_text(input.spec_bytes()), input),
    {
        let s = input.as_bytes();
        let (o, e) = decode_wind_at(s, 0);
        let o = if o.is_value() && e != s.len() {
            Outcome::NoMatch
        } else {
            o
        };
        let mut expected: Vec<ExpectedNext> = Vec::new();
        expected.push(literal("CALM"));
        expected.push(literal("VRB"));
        expected.push(ExpectedNext::Digits);
        finish(input, o, expected)
    }
}

} // verus!
