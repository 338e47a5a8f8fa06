//! Runway designators, runway visual range and runway surface condition.
use vstd::prelude::*;
use vstd::string::StringSliceAdditionalSpecFns;
use crate::data::Data;
use crate::diag::{found_at, literal};
use crate::error::{variant_of, ErrorVariant, ExpectedNext, MetarError};
use crate::lexer::{anchored, 
    check_digits, check_slashes, digits_at, find_segment_end, is_digit, is_digit_byte, is_exactly,
    number_at, read_number, segment_end, slashes_at,
};
use crate::lexer::{find_skip_ws, find_tok_end, lemma_next_tok_bounds};
use crate::outcome::{FieldError, Outcome};
use crate::run::run_checked;
use crate::text::{ascii_chars, ascii_string};

verus! {

/// The visibility measured for a specific runway.
#[derive(PartialEq, Eq, Clone, Debug)]
pub struct RunwayVisualRange {
    /// The runway this measurement applies to
    pub runway: String,
    /// The visibility for this runway
    pub value: Data<RvrValue>,
    /// The visibility unit
    pub unit: RvrUnit,
    /// How is the RVR trending?
    pub trend: Data<RvrTrend>,
}

/// The visibility value
#[derive(PartialEq, Eq, Copy, Clone, Debug, Hash)]
pub enum RvrValue {
    /// There is a single value specified
    Single(RvrValueInner),
    /// The value is between these two
    Between(RvrValueInner, RvrValueInner),
}

/// One visibility value
#[derive(PartialEq, Eq, Copy, Clone, Debug, Hash)]
pub enum RvrValueInner {
    /// The value is exactly
    Exactly(u32),
    /// The value is greater than
    GreaterThan(u32),
    /// The value is less than
    LessThan(u32),
}

/// The unit of measurement
#[derive(PartialEq, Eq, Copy, Clone, Debug, Hash)]
pub enum RvrUnit {
    /// Metres
    Metres,
    /// Feet
    Feet,
}

/// How is the RVR trending?
#[derive(PartialEq, Eq, Copy, Clone, Debug, Hash)]
pub enum RvrTrend {
    /// Trending upwards
    Upwards,
    /// Trending downwards
    Downwards,
    /// No change
    NoChange,
}

/// Describes contamination on a runway
#[derive(PartialEq, Eq, Clone, Debug)]
pub struct RunwayCondition {
    /// Affected runway number
    pub runway_number: String,
    /// Contamination detail
    pub contamination: RunwayContamination,
    /// Percentage of braking action on the runway
    pub braking_action: Data<u8>,
}

/// Describes contamination on a runway
#[derive(PartialEq, Eq, Copy, Clone, Debug, Hash)]
pub enum RunwayContamination {
    /// Contamination is cleared
    Cleared,
    /// Contamination is present
    Present {
        /// Runway deposits
        deposits: Data<RunwayDeposits>,
        /// Runway contamination
        contamination: Data<u8>,
        /// Runway deposit depth, usually in millimetres, but figures
        /// above 90 may have different interpretations
        deposit_depth: Data<u8>,
    },
}

/// Describes deposits on a runway
#[derive(PartialEq, Eq, Copy, Clone, Debug, Hash)]
pub enum RunwayDeposits {
    ClearAndDry,
    Damp,
    WetOrWaterPatches,
    RimeOrFrostCovered,
    DrySnow,
    WetSnow,
    Slush,
    Ice,
    CompactedOrRolledSnow,
    FrozenRutsOrRidgets,
}

impl View for RunwayVisualRange {
    type V = (Seq<char>, Data<RvrValue>, RvrUnit, Data<RvrTrend>);

    open spec fn view(&self) -> (Seq<char>, Data<RvrValue>, RvrUnit, Data<RvrTrend>) {
        (self.runway@, self.value, self.unit, self.trend)
    }
}

impl View for RunwayCondition {
    type V = (Seq<char>, RunwayContamination, Data<u8>);

    open spec fn view(&self) -> (Seq<char>, RunwayContamination, Data<u8>) {
        (self.runway_number@, self.contamination, self.braking_action)
    }
}

/// An RVR token decoded to the model of the value it gives.
pub open spec fn spec_rvr_view(t: Seq<u8>) -> Outcome<(Seq<char>, Data<RvrValue>, RvrUnit, Data<RvrTrend>)> {
    match spec_rvr(t) {
        Outcome::Value((rwy, v, unit, trend)) => Outcome::Value((ascii_chars(rwy), v, unit, trend)),
        Outcome::Invalid(f) => Outcome::Invalid(f),
        Outcome::NoMatch => Outcome::NoMatch,
    }
}

/// A runway condition token decoded to the model of the value it gives.
pub open spec fn spec_runway_condition_view(t: Seq<u8>) -> Outcome<(Seq<char>, RunwayContamination, Data<u8>)> {
    match spec_runway_condition(t) {
        Outcome::Value((rwy, c, braking)) => Outcome::Value((ascii_chars(rwy), c, braking)),
        Outcome::Invalid(f) => Outcome::Invalid(f),
        Outcome::NoMatch => Outcome::NoMatch,
    }
}

pub open spec fn f_rvr() -> spec_fn(Seq<u8>) -> Outcome<(Seq<char>, Data<RvrValue>, RvrUnit, Data<RvrTrend>)> {
    |t: Seq<u8>| spec_rvr_view(t)
}

pub open spec fn f_runway_condition() -> spec_fn(Seq<u8>) -> Outcome<(Seq<char>, RunwayContamination, Data<u8>)> {
    |t: Seq<u8>| spec_runway_condition_view(t)
}

/// The models of a list of runway visual ranges.
pub open spec fn rvr_views(v: Seq<RunwayVisualRange>) -> Seq<(Seq<char>, Data<RvrValue>, RvrUnit, Data<RvrTrend>)> {
    v.map_values(|x: RunwayVisualRange| x@)
}

/// The models of a list of runway conditions.
pub open spec fn runway_condition_views(v: Seq<RunwayCondition>) -> Seq<(Seq<char>, RunwayContamination, Data<u8>)> {
    v.map_values(|x: RunwayCondition| x@)
}

/// How many digits a runway designator starts with.
pub open spec fn runway_digit_count(r: Seq<u8>) -> int {
    if r.len() >= 2 && is_digit(r[1]) {
        2
    } else {
        1
    }
}

/// A runway designator: one or two digits, then `L`, `C`, `R` or nothing;
/// the number is at most 36, or 88.
pub open spec fn spec_runway(r: Seq<u8>) -> Outcome<Seq<u8>> {
    let nd = runway_digit_count(r);
    if !(digits_at(r, 0, nd) && (r.len() == nd || (r.len() == nd + 1 && (r[nd] == 76 || r[nd] == 67
        || r[nd] == 82)))) {
        Outcome::NoMatch
    } else if !(number_at(r, 0, nd) <= 36 || number_at(r, 0, nd) == 88) {
        Outcome::Invalid(FieldError::InvalidRvrRunwayNumber)
    } else {
        Outcome::Value(r)
    }
}

/// A token `R<runway>`: its designator.
pub open spec fn spec_runway_token(t: Seq<u8>) -> Outcome<Seq<u8>> {
    if t.len() < 2 || t[0] != 82 {
        Outcome::NoMatch
    } else {
        spec_runway(t.subrange(1, t.len() as int))
    }
}

/// One RVR value at index `i` of `u`: `P`, `M` or nothing, then four digits;
/// and the index after it.
pub open spec fn spec_rvr_inner(u: Seq<u8>, i: int) -> Option<(RvrValueInner, int)> {
    if 0 <= i && i + 5 <= u.len() && u[i] == 80 && digits_at(u, i + 1, 4) {
        Some((RvrValueInner::GreaterThan(number_at(u, i + 1, 4) as u32), i + 5))
    } else if 0 <= i && i + 5 <= u.len() && u[i] == 77 && digits_at(u, i + 1, 4) {
        Some((RvrValueInner::LessThan(number_at(u, i + 1, 4) as u32), i + 5))
    } else if 0 <= i && digits_at(u, i, 4) {
        Some((RvrValueInner::Exactly(number_at(u, i, 4) as u32), i + 4))
    } else {
        None
    }
}

/// Four slashes, one value, or two values joined by `V`; and the index after it.
pub open spec fn spec_rvr_value(u: Seq<u8>) -> Option<(Data<RvrValue>, int)> {
    if slashes_at(u, 0, 4) {
        Some((Data::Unknown, 4))
    } else {
        match spec_rvr_inner(u, 0) {
            Some((v1, k)) => match spec_rvr_inner(u, k + 1) {
                Some((v2, k2)) => if k < u.len() && u[k] == 86 {
                    Some((Data::Known(RvrValue::Between(v1, v2)), k2))
                } else {
                    Some((Data::Known(RvrValue::Single(v1)), k))
                },
                None => Some((Data::Known(RvrValue::Single(v1)), k)),
            },
            None => None,
        }
    }
}

/// The trend letter `U`, `D` or `N`.
pub open spec fn spec_trend_letter(c: u8) -> Option<RvrTrend> {
    if c == 85 {
        Some(RvrTrend::Upwards)
    } else if c == 68 {
        Some(RvrTrend::Downwards)
    } else if c == 78 {
        Some(RvrTrend::NoChange)
    } else {
        None
    }
}

/// The rest of an RVR token after its value: an optional `FT`, an optional
/// `/`, and a trend letter, a slash (unknown) or nothing (no change).
pub open spec fn spec_rvr_tail(w: Seq<u8>) -> Option<(RvrUnit, Data<RvrTrend>)> {
    let feet = w.len() >= 2 && w[0] == 70 && w[1] == 84;
    let unit = if feet { RvrUnit::Feet } else { RvrUnit::Metres };
    let x = if feet { w.subrange(2, w.len() as int) } else { w };
    if x.len() == 0 || (x.len() == 1 && x[0] == 47) {
        Some((unit, Data::Known(RvrTrend::NoChange)))
    } else if x.len() == 2 && x[0] == 47 && x[1] == 47 {
        Some((unit, Data::Unknown))
    } else if x.len() == 1 && spec_trend_letter(x[0]) is Some {
        Some((unit, Data::Known(spec_trend_letter(x[0])->0)))
    } else if x.len() == 2 && x[0] == 47 && spec_trend_letter(x[1]) is Some {
        Some((unit, Data::Known(spec_trend_letter(x[1])->0)))
    } else {
        None
    }
}

/// Where the `/` after the runway designator of a token `R<runway>/...` is.
pub open spec fn runway_slash(t: Seq<u8>) -> int {
    segment_end(t, 1)
}

/// An RVR token: `R`, runway, `/`, value, then unit and trend.
pub open spec fn spec_rvr(t: Seq<u8>) -> Outcome<(Seq<u8>, Data<RvrValue>, RvrUnit, Data<RvrTrend>)> {
    let j = runway_slash(t);
    if t.len() < 1 || t[0] != 82 || j >= t.len() {
        Outcome::NoMatch
    } else {
        let u = t.subrange(j + 1, t.len() as int);
        match spec_rvr_value(u) {
            Some((v, k)) => match spec_rvr_tail(u.subrange(k, u.len() as int)) {
                Some((unit, trend)) => match spec_runway(t.subrange(1, j)) {
                    Outcome::Value(r) => Outcome::Value((r, v, unit, trend)),
                    Outcome::Invalid(f) => Outcome::Invalid(f),
                    Outcome::NoMatch => Outcome::NoMatch,
                },
                None => Outcome::NoMatch,
            },
            None => Outcome::NoMatch,
        }
    }
}

pub open spec fn deposit_of(d: int) -> RunwayDeposits {
    if d == 0 {
        RunwayDeposits::ClearAndDry
    } else if d == 1 {
        RunwayDeposits::Damp
    } else if d == 2 {
        RunwayDeposits::WetOrWaterPatches
    } else if d == 3 {
        RunwayDeposits::RimeOrFrostCovered
    } else if d == 4 {
        RunwayDeposits::DrySnow
    } else if d == 5 {
        RunwayDeposits::WetSnow
    } else if d == 6 {
        RunwayDeposits::Slush
    } else if d == 7 {
        RunwayDeposits::Ice
    } else if d == 8 {
        RunwayDeposits::CompactedOrRolledSnow
    } else {
        RunwayDeposits::FrozenRutsOrRidgets
    }
}

/// `n` slashes (unknown) or `n` digits.
pub open spec fn spec_small(x: Seq<u8>, n: int) -> Option<Data<u8>> {
    if x.len() == n && slashes_at(x, 0, n) {
        Some(Data::Unknown)
    } else if x.len() == n && digits_at(x, 0, n) {
        Some(Data::Known(number_at(x, 0, n) as u8))
    } else {
        None
    }
}

/// The state part of a runway condition token: `CLRD` or deposit,
/// coverage and depth, then the braking action.
pub open spec fn spec_runway_state(u: Seq<u8>) -> Option<(RunwayContamination, Data<u8>)> {
    if u.len() != 6 || spec_small(u.subrange(4, 6), 2) is None {
        None
    } else if u.subrange(0, 4) == seq![67u8, 76u8, 82u8, 68u8] {
        Some((RunwayContamination::Cleared, spec_small(u.subrange(4, 6), 2)->0))
    } else {
        match (spec_small(u.subrange(0, 1), 1), spec_small(u.subrange(1, 2), 1), spec_small(u.subrange(2, 4), 2)) {
            (Some(d), Some(c), Some(depth)) => Some((
                RunwayContamination::Present {
                    deposits: match d {
                        Data::Known(n) => Data::Known(deposit_of(n as int)),
                        Data::Unknown => Data::Unknown,
                    },
                    contamination: c,
                    deposit_depth: depth,
                },
                spec_small(u.subrange(4, 6), 2)->0,
            )),
            _ => None,
        }
    }
}

/// A runway condition token: `R`, runway, `/`, state.
pub open spec fn spec_runway_condition(t: Seq<u8>) -> Outcome<(Seq<u8>, RunwayContamination, Data<u8>)> {
    let j = runway_slash(t);
    if t.len() < 1 || t[0] != 82 || j >= t.len() {
        Outcome::NoMatch
    } else {
        match spec_runway_state(t.subrange(j + 1, t.len() as int)) {
            Some((c, braking)) => match spec_runway(t.subrange(1, j)) {
                Outcome::Value(r) => Outcome::Value((r, c, braking)),
                Outcome::Invalid(f) => Outcome::Invalid(f),
                Outcome::NoMatch => Outcome::NoMatch,
            },
            None => Outcome::NoMatch,
        }
    }
}

/// Decodes the bytes `[a, b)` of `s` as a runway designator.
pub fn decode_runway(s: &[u8], a: usize, b: usize) -> (r: Outcome<()>)
    requires
        a <= b <= s@.len(),
    ensures
        match spec_runway(s@.subrange(a as int, b as int)) {
            Outcome::Value(_) => r is Value,
            Outcome::Invalid(f) => r == Outcome::<()>::Invalid(f),
            Outcome::NoMatch => r is NoMatch,
        },
{
    let ghost t = s@.subrange(a as int, b as int);
    let n = b - a;
    let nd: usize = if n >= 2 && is_digit_byte(s[a + 1]) { 2 } else { 1 };
    assert(nd == runway_digit_count(t));
    if !check_digits(s, a, b, 0, nd) {
        return Outcome::NoMatch;
    }
    if !(n == nd || (n == nd + 1 && (s[a + nd] == 76 || s[a + nd] == 67 || s[a + nd] == 82))) {
        return Outcome::NoMatch;
    }
    let v = read_number(s, a, b, 0, nd);
    if !(v <= 36 || v == 88) {
        return Outcome::Invalid(FieldError::InvalidRvrRunwayNumber);
    }
    Outcome::Value(())
}

fn decode_rvr_inner(s: &[u8], a: usize, b: usize, i: usize) -> (r: Option<(RvrValueInner, usize)>)
    requires
        a <= b <= s@.len(),
        i <= b - a,
    ensures
        match spec_rvr_inner(s@.subrange(a as int, b as int), i as int) {
            Some((v, k)) => r == Some((v, k as usize)),
            None => r is None,
        },
{
    let n = b - a;
    if n - i >= 5 && s[a + i] == 80 && check_digits(s, a, b, i + 1, 4) {
        return Some((RvrValueInner::GreaterThan(read_number(s, a, b, i + 1, 4)), i + 5));
    }
    if n - i >= 5 && s[a + i] == 77 && check_digits(s, a, b, i + 1, 4) {
        return Some((RvrValueInner::LessThan(read_number(s, a, b, i + 1, 4)), i + 5));
    }
    if n - i >= 4 && check_digits(s, a, b, i, 4) {
        return Some((RvrValueInner::Exactly(read_number(s, a, b, i, 4)), i + 4));
    }
    None
}

fn decode_rvr_value(s: &[u8], a: usize, b: usize) -> (r: Option<(Data<RvrValue>, usize)>)
    requires
        a <= b <= s@.len(),
    ensures
        match spec_rvr_value(s@.subrange(a as int, b as int)) {
            Some((v, k)) => r == Some((v, k as usize)) && k <= b - a,
            None => r is None,
        },
{
    if check_slashes(s, a, b, 0, 4) {
        return Some((Data::Unknown, 4));
    }
    match decode_rvr_inner(s, a, b, 0) {
        Some((v1, k)) => {
            if k < b - a && s[a + k] == 86 {
                if let Some((v2, k2)) = decode_rvr_inner(s, a, b, k + 1) {
                    return Some((Data::Known(RvrValue::Between(v1, v2)), k2));
                }
            }
            Some((Data::Known(RvrValue::Single(v1)), k))
        },
        None => None,
    }
}

fn trend_letter(c: u8) -> (r: Option<RvrTrend>)
    ensures
        r == spec_trend_letter(c),
{
    if c == 85 {
        Some(RvrTrend::Upwards)
    } else if c == 68 {
        Some(RvrTrend::Downwards)
    } else if c == 78 {
        Some(RvrTrend::NoChange)
    } else {
        None
    }
}

fn decode_rvr_tail(s: &[u8], a: usize, b: usize) -> (r: Option<(RvrUnit, Data<RvrTrend>)>)
    requires
        a <= b <= s@.len(),
    ensures
        r == spec_rvr_tail(s@.subrange(a as int, b as int)),
{
    let ghost w = s@.subrange(a as int, b as int);
    let feet = b - a >= 2 && s[a] == 70 && s[a + 1] == 84;
    let unit = if feet { RvrUnit::Feet } else { RvrUnit::Metres };
    let x = if feet { a + 2 } else { a };
    assert(s@.subrange(x as int, b as int) =~= if feet { w.subrange(2, w.len() as int) } else { w });
    let n = b - x;
    if n == 0 || (n == 1 && s[x] == 47) {
        return Some((unit, Data::Known(RvrTrend::NoChange)));
    }
    if n == 2 && s[x] == 47 && s[x + 1] == 47 {
        return Some((unit, Data::Unknown));
    }
    if n == 1 {
        if let Some(tr) = trend_letter(s[x]) {
            return Some((unit, Data::Known(tr)));
        }
    }
    if n == 2 && s[x] == 47 {
        if let Some(tr) = trend_letter(s[x + 1]) {
            return Some((unit, Data::Known(tr)));
        }
    }
    None
}

impl RunwayVisualRange {
    /// Decodes the token `[a, b)` of `s` as a runway visual range.
    pub fn decode(s: &[u8], a: usize, b: usize) -> (r: Outcome<RunwayVisualRange>)
        requires
            a <= b <= s@.len(),
        ensures
            match spec_rvr(s@.subrange(a as int, b as int)) {
                Outcome::Value((rwy, v, unit, trend)) => r matches Outcome::Value(x)
                    && x@ == (ascii_chars(rwy), v, unit, trend),
                Outcome::Invalid(f) => r == Outcome::<RunwayVisualRange>::Invalid(f),
                Outcome::NoMatch => r is NoMatch,
            },
    {
        let ghost t = s@.subrange(a as int, b as int);
        if b - a < 1 || s[a] != 82 {
            return Outcome::NoMatch;
        }
        let j = find_segment_end(s, a, b, 1);
        if j >= b - a {
            return Outcome::NoMatch;
        }
        let ghost u = t.subrange(j + 1, t.len() as int);
        assert(s@.subrange(a + j + 1, b as int) =~= u);
        match decode_rvr_value(s, a + j + 1, b) {
            Some((value, k)) => {
                assert(s@.subrange(a + j + 1 + k, b as int) =~= u.subrange(k as int, u.len() as int));
                match decode_rvr_tail(s, a + j + 1 + k, b) {
                    Some((unit, trend)) => {
                        assert(s@.subrange(a + 1, a + j) =~= t.subrange(1, j as int));
                        match decode_runway(s, a + 1, a + j) {
                            Outcome::Value(_) => {
                                let runway = ascii_string(s, a + 1, a + j);
                                Outcome::Value(RunwayVisualRange { runway, value, unit, trend })
                            },
                            Outcome::Invalid(f) => Outcome::Invalid(f),
                            Outcome::NoMatch => Outcome::NoMatch,
                        }
                    },
                    None => Outcome::NoMatch,
                }
            },
            None => Outcome::NoMatch,
        }
    }

    /// Parses a whole text as a runway visual range.
    pub fn parse(input: &str) -> (r: Result<RunwayVisualRange, Vec<MetarError<'_>>>)
        ensures
            match spec_rvr(input.spec_bytes()) {
                Outcome::Value((rwy, v, unit, trend)) => r matches Ok(x) && x@ == (ascii_chars(rwy), v, unit, trend),
                Outcome::Invalid(f) => r matches Err(es) && es@.len() == 1 && es@[0].string == input
                    && es@[0].start == 0 && es@[0].end == input.spec_bytes().len()
                    && variant_of(es@[0].variant, f),
                Outcome::NoMatch => r matches Err(es) && es@.len() == 1 && es@[0].string == input
                    && es@[0].start == 0 && es@[0].end == input.spec_bytes().len()
                    && (es@[0].variant matches ErrorVariant::ExpectedFound { found, .. }
                    && found == found_at(input.spec_bytes(), 0)),
            },
    {
        let s = input.as_bytes();
        assert(s@.subrange(0, s@.len() as int) =~= s@);
        let o = RunwayVisualRange::decode(s, 0, s.len());
        let mut expected: Vec<ExpectedNext> = Vec::new();
        expected.push(literal("R"));
        crate::diag::finish(input, o, expected)
    }
}

fn decode_small(s: &[u8], a: usize, b: usize, n: usize) -> (r: Option<Data<u8>>)
    requires
        a <= b <= s@.len(),
        n <= 2,
    ensures
        r == spec_small(s@.subrange(a as int, b as int), n as int),
{
    if b - a == n && check_slashes(s, a, b, 0, n) {
        Some(Data::Unknown)
    } else if b - a == n && check_digits(s, a, b, 0, n) {
        Some(Data::Known(read_number(s, a, b, 0, n) as u8))
    } else {
        None
    }
}

fn deposit(d: u8) -> (r: RunwayDeposits)
    ensures
        r == deposit_of(d as int),
{
    if d == 0 {
        RunwayDeposits::ClearAndDry
    } else if d == 1 {
        RunwayDeposits::Damp
    } else if d == 2 {
        RunwayDeposits::WetOrWaterPatches
    } else if d == 3 {
        RunwayDeposits::RimeOrFrostCovered
    } else if d == 4 {
        RunwayDeposits::DrySnow
    } else if d == 5 {
        RunwayDeposits::WetSnow
    } else if d == 6 {
        RunwayDeposits::Slush
    } else if d == 7 {
        RunwayDeposits::Ice
    } else if d == 8 {
        RunwayDeposits::CompactedOrRolledSnow
    } else {
        RunwayDeposits::FrozenRutsOrRidgets
    }
}

fn decode_runway_state(s: &[u8], a: usize, b: usize) -> (r: Option<(RunwayContamination, Data<u8>)>)
    requires
        a <= b <= s@.len(),
    ensures
        r == spec_runway_state(s@.subrange(a as int, b as int)),
{
    let ghost u = s@.subrange(a as int, b as int);
    if b - a != 6 {
        return None;
    }
    assert(s@.subrange(a + 4, a + 6) =~= u.subrange(4, 6));
    assert(s@.subrange(a as int, a + 4) =~= u.subrange(0, 4));
    assert(s@.subrange(a as int, a + 1) =~= u.subrange(0, 1));
    assert(s@.subrange(a + 1, a + 2) =~= u.subrange(1, 2));
    assert(s@.subrange(a + 2, a + 4) =~= u.subrange(2, 4));
    let braking = match decode_small(s, a + 4, a + 6, 2) {
        Some(v) => v,
        None => {
            return None;
        },
    };
    if is_exactly(s, a, a + 4, &[67, 76, 82, 68]) {
        return Some((RunwayContamination::Cleared, braking));
    }
    match (decode_small(s, a, a + 1, 1), decode_small(s, a + 1, a + 2, 1), decode_small(s, a + 2, a + 4, 2)) {
        (Some(d), Some(c), Some(depth)) => {
            let deposits = match d {
                Data::Known(n) => Data::Known(deposit(n)),
                Data::Unknown => Data::Unknown,
            };
            Some((RunwayContamination::Present { deposits, contamination: c, deposit_depth: depth }, braking))
        },
        _ => None,
    }
}

impl RunwayCondition {
    /// Decodes the token `[a, b)` of `s` as a runway condition.
    pub fn decode(s: &[u8], a: usize, b: usize) -> (r: Outcome<RunwayCondition>)
        requires
            a <= b <= s@.len(),
        ensures
            match spec_runway_condition(s@.subrange(a as int, b as int)) {
                Outcome::Value((rwy, c, braking)) => r matches Outcome::Value(x)
                    && x@ == (ascii_chars(rwy), c, braking),
                Outcome::Invalid(f) => r == Outcome::<RunwayCondition>::Invalid(f),
                Outcome::NoMatch => r is NoMatch,
            },
    {
        let ghost t = s@.subrange(a as int, b as int);
        if b - a < 1 || s[a] != 82 {
            return Outcome::NoMatch;
        }
        let j = find_segment_end(s, a, b, 1);
        if j >= b - a {
            return Outcome::NoMatch;
        }
        assert(s@.subrange(a + j + 1, b as int) =~= t.subrange(j + 1, t.len() as int));
        match decode_runway_state(s, a + j + 1, b) {
            Some((contamination, braking_action)) => {
                assert(s@.subrange(a + 1, a + j) =~= t.subrange(1, j as int));
                match decode_runway(s, a + 1, a + j) {
                    Outcome::Value(_) => {
                        let runway_number = ascii_string(s, a + 1, a + j);
                        Outcome::Value(RunwayCondition { runway_number, contamination, braking_action })
                    },
                    Outcome::Invalid(f) => Outcome::Invalid(f),
                    Outcome::NoMatch => Outcome::NoMatch,
                }
            },
            None => Outcome::NoMatch,
        }
    }
}


/// The runway visual ranges from `p` on, where the text after them starts, and the check the next token failed, if it did.
pub fn decode_rvr_run(s: &[u8], p: usize) -> (r: (Vec<RunwayVisualRange>, usize, Option<FieldError>))
    requires
        anchored(s@, p as int),
        p <= s@.len(),
    ensures
        anchored(s@, r.1 as int),
        rvr_views(r.0@) == run_checked(s@, p as int, f_rvr()).0,
        r.1 == run_checked(s@, p as int, f_rvr()).1,
        r.2 == run_checked(s@, p as int, f_rvr()).2,
        p <= r.1 <= s@.len(),
{
    let mut v: Vec<RunwayVisualRange> = Vec::new();
    let mut q: usize = p;
    loop
        invariant
            p <= q <= s@.len(),
            anchored(s@, q as int),
            run_checked(s@, p as int, f_rvr()).0 == rvr_views(v@) + run_checked(s@, q as int, f_rvr()).0,
            run_checked(s@, p as int, f_rvr()).1 == run_checked(s@, q as int, f_rvr()).1,
            run_checked(s@, p as int, f_rvr()).2 == run_checked(s@, q as int, f_rvr()).2,
        ensures
            p <= q <= s@.len(),
            anchored(s@, q as int),
            run_checked(s@, p as int, f_rvr()).0 == rvr_views(v@),
            run_checked(s@, p as int, f_rvr()).1 == q,
            run_checked(s@, p as int, f_rvr()).2 is None,
        decreases s@.len() - q,
    {
        proof {
            lemma_next_tok_bounds(s@, q as int);
        }
        let e = find_tok_end(s, q);
        let nq = find_skip_ws(s, e);
        if nq <= q {
            assert(run_checked(s@, q as int, f_rvr()) == (Seq::<(Seq<char>, Data<RvrValue>, RvrUnit, Data<RvrTrend>)>::empty(), q as int, None::<FieldError>));
            assert(rvr_views(v@) + Seq::empty() =~= rvr_views(v@));
            break;
        }
        match RunwayVisualRange::decode(s, q, e) {
            Outcome::Value(x) => {
                let ghost before = v@;
                v.push(x);
                assert(rvr_views(v@) =~= rvr_views(before).push(rvr_views(v@).last()));
                assert(rvr_views(v@) + run_checked(s@, nq as int, f_rvr()).0 =~= rvr_views(before) + (seq![rvr_views(v@).last()] + run_checked(s@, nq as int, f_rvr()).0));
                q = nq;
            },
            Outcome::Invalid(f) => {
                assert(run_checked(s@, q as int, f_rvr()) == (Seq::<(Seq<char>, Data<RvrValue>, RvrUnit, Data<RvrTrend>)>::empty(), q as int, Some(f)));
                assert(rvr_views(v@) + Seq::empty() =~= rvr_views(v@));
                return (v, q, Some(f));
            },
            Outcome::NoMatch => {
                assert(run_checked(s@, q as int, f_rvr()) == (Seq::<(Seq<char>, Data<RvrValue>, RvrUnit, Data<RvrTrend>)>::empty(), q as int, None::<FieldError>));
                assert(rvr_views(v@) + Seq::empty() =~= rvr_views(v@));
                break;
            },
        }
    }
    (v, q, None)
}

/// The runway conditions from `p` on, where the text after them starts, and the check the next token failed, if it did.
pub fn decode_runway_condition_run(s: &[u8], p: usize) -> (r: (Vec<RunwayCondition>, usize, Option<FieldError>))
    requires
        anchored(s@, p as int),
        p <= s@.len(),
    ensures
        anchored(s@, r.1 as int),
        runway_condition_views(r.0@) == run_checked(s@, p as int, f_runway_condition()).0,
        r.1 == run_checked(s@, p as int, f_runway_condition()).1,
        r.2 == run_checked(s@, p as int, f_runway_condition()).2,
        p <= r.1 <= s@.len(),
{
    let mut v: Vec<RunwayCondition> = Vec::new();
    let mut q: usize = p;
    loop
        invariant
            p <= q <= s@.len(),
            anchored(s@, q as int),
            run_checked(s@, p as int, f_runway_condition()).0 == runway_condition_views(v@) + run_checked(s@, q as int, f_runway_condition()).0,
            run_checked(s@, p as int, f_runway_condition()).1 == run_checked(s@, q as int, f_runway_condition()).1,
            run_checked(s@, p as int, f_runway_condition()).2 == run_checked(s@, q as int, f_runway_condition()).2,
        ensures
            p <= q <= s@.len(),
            anchored(s@, q as int),
            run_checked(s@, p as int, f_runway_condition()).0 == runway_condition_views(v@),
            run_checked(s@, p as int, f_runway_condition()).1 == q,
            run_checked(s@, p as int, f_runway_condition()).2 is None,
        decreases s@.len() - q,
    {
        proof {
            lemma_next_tok_bounds(s@, q as int);
        }
        let e = find_tok_end(s, q);
        let nq = find_skip_ws(s, e);
        if nq <= q {
            assert(run_checked(s@, q as int, f_runway_condition()) == (Seq::<(Seq<char>, RunwayContamination, Data<u8>)>::empty(), q as int, None::<FieldError>));
            assert(runway_condition_views(v@) + Seq::empty() =~= runway_condition_views(v@));
            break;
        }
        match RunwayCondition::decode(s, q, e) {
            Outcome::Value(x) => {
                let ghost before = v@;
                v.push(x);
                assert(runway_condition_views(v@) =~= runway_condition_views(before).push(runway_condition_views(v@).last()));
                assert(runway_condition_views(v@) + run_checked(s@, nq as int, f_runway_condition()).0 =~= runway_condition_views(before) + (seq![runway_condition_views(v@).last()] + run_checked(s@, nq as int, f_runway_condition()).0));
                q = nq;
            },
            Outcome::Invalid(f) => {
                assert(run_checked(s@, q as int, f_runway_condition()) == (Seq::<(Seq<char>, RunwayContamination, Data<u8>)>::empty(), q as int, Some(f)));
                assert(runway_condition_views(v@) + Seq::empty() =~= runway_condition_views(v@));
                return (v, q, Some(f));
            },
            Outcome::NoMatch => {
                assert(run_checked(s@, q as int, f_runway_condition()) == (Seq::<(Seq<char>, RunwayContamination, Data<u8>)>::empty(), q as int, None::<FieldError>));
                assert(runway_condition_views(v@) + Seq::empty() =~= runway_condition_views(v@));
                break;
            },
        }
    }
    (v, q, None)
}

} // verus!
