//! Horizontal visibility, and the compass directions that directional
//! visibility groups use.
use vstd::prelude::*;
use vstd::string::StringSliceAdditionalSpecFns;
use crate::data::Data;
use crate::diag::{finish, literal, whole_result};
use crate::error::{ExpectedNext, MetarError};
use crate::lexer::{anchored, 
    check_digits, digits_at, is_exactly, next_tok, number_at, read_number, token, find_tok_end,
    find_skip_ws, lemma_next_tok_bounds, lemma_number_bound, pow10, slashes_at, check_slashes,
};
use crate::outcome::Outcome;
use crate::run::run;

verus! {

/// A compass direction
#[derive(PartialEq, Eq, Copy, Clone, Debug, Hash)]
pub enum CompassDirection {
    North,
    NorthEast,
    East,
    SouthEast,
    South,
    SouthWest,
    West,
    NorthWest,
}

/// Horizontal visibility
#[derive(PartialEq, Eq, Copy, Clone, Debug, Hash)]
pub enum Visibility {
    /// Ceiling and visibility OK
    CAVOK,
    /// Metres
    Metres(u16),
    /// Statute miles, usually used in the US: exactly `numerator / denominator` miles
    StatuteMiles {
        /// Numerator of the distance
        numerator: u32,
        /// Denominator of the distance, never zero
        denominator: u32,
    },
}

/// The compass direction a whole token names.
pub open spec fn spec_compass(t: Seq<u8>) -> Option<CompassDirection> {
    if t.len() == 1 && t[0] == 78 {
        Some(CompassDirection::North)
    } else if t.len() == 2 && t[0] == 78 && t[1] == 69 {
        Some(CompassDirection::NorthEast)
    } else if t.len() == 1 && t[0] == 69 {
        Some(CompassDirection::East)
    } else if t.len() == 2 && t[0] == 83 && t[1] == 69 {
        Some(CompassDirection::SouthEast)
    } else if t.len() == 1 && t[0] == 83 {
        Some(CompassDirection::South)
    } else if t.len() == 2 && t[0] == 83 && t[1] == 87 {
        Some(CompassDirection::SouthWest)
    } else if t.len() == 1 && t[0] == 87 {
        Some(CompassDirection::West)
    } else if t.len() == 2 && t[0] == 78 && t[1] == 87 {
        Some(CompassDirection::NorthWest)
    } else {
        None
    }
}

/// One or two digits.
pub open spec fn is_whole_miles(t: Seq<u8>) -> bool {
    (t.len() == 1 || t.len() == 2) && digits_at(t, 0, t.len() as int)
}

/// `n/dSM` with one-digit `n` and a one-digit `d` that is not zero.
pub open spec fn spec_fraction(t: Seq<u8>) -> Option<(u32, u32)> {
    if t.len() == 5 && digits_at(t, 0, 1) && t[1] == 47 && digits_at(t, 2, 1) && t[2] != 48
        && t[3] == 83 && t[4] == 77 {
        Some((number_at(t, 0, 1) as u32, number_at(t, 2, 1) as u32))
    } else {
        None
    }
}

/// What a single visibility token decodes to.
pub open spec fn spec_visibility(t: Seq<u8>) -> Option<Visibility> {
    if t == seq![67u8, 65u8, 86u8, 79u8, 75u8] || t == seq![83u8, 75u8, 67u8] {
        Some(Visibility::CAVOK)
    } else if t.len() == 4 && digits_at(t, 0, 4) {
        Some(Visibility::Metres(number_at(t, 0, 4) as u16))
    } else if t.len() >= 3 && t[t.len() - 2] == 83 && t[t.len() - 1] == 77
        && is_whole_miles(t.subrange(0, t.len() - 2)) {
        Some(Visibility::StatuteMiles { numerator: number_at(t, 0, t.len() - 2) as u32, denominator: 1 })
    } else {
        match spec_fraction(t) {
            Some((n, d)) => Some(Visibility::StatuteMiles { numerator: n, denominator: d }),
            None => None,
        }
    }
}

/// The primary visibility at `p`: a single token, four slashes, four digits
/// followed by `NDV`, or whole miles and a fraction in two tokens; and where
/// the text after it starts.
pub open spec fn spec_visibility_at(s: Seq<u8>, p: int) -> (Option<Data<Visibility>>, int) {
    let t = token(s, p);
    let q = next_tok(s, p);
    if t == seq![47u8, 47u8, 47u8, 47u8] {
        (Some(Data::Unknown), q)
    } else if spec_visibility(t) is Some {
        (Some(Data::Known(spec_visibility(t)->0)), q)
    } else if t.len() == 7 && digits_at(t, 0, 4) && t.subrange(4, 7) == seq![78u8, 68u8, 86u8] {
        (Some(Data::Known(Visibility::Metres(number_at(t, 0, 4) as u16))), q)
    } else {
        match spec_fraction(token(s, q)) {
            Some((n, d)) => if is_whole_miles(t) {
                (
                    Some(Data::Known(Visibility::StatuteMiles {
                        numerator: (number_at(t, 0, t.len() as int) * d + n) as u32,
                        denominator: d,
                    })),
                    next_tok(s, q),
                )
            } else {
                (None, p)
            },
            None => (None, p),
        }
    }
}

/// A whole text that is one known visibility and nothing more.
pub open spec fn spec_visibility_text(s: Seq<u8>) -> Outcome<Visibility> {
    match spec_visibility_at(s, 0) {
        (Some(Data::Known(v)), e) => if e == s.len() {
            Outcome::Value(v)
        } else {
            Outcome::NoMatch
        },
        _ => Outcome::NoMatch,
    }
}

/// A directional visibility token: four digits or four slashes, then a compass direction.
pub open spec fn spec_directional(t: Seq<u8>) -> Option<(CompassDirection, Data<Visibility>)> {
    if t.len() < 5 || spec_compass(t.subrange(4, t.len() as int)) is None {
        None
    } else if slashes_at(t, 0, 4) {
        Some((spec_compass(t.subrange(4, t.len() as int))->0, Data::Unknown))
    } else if digits_at(t, 0, 4) {
        Some((
            spec_compass(t.subrange(4, t.len() as int))->0,
            Data::Known(Visibility::Metres(number_at(t, 0, 4) as u16)),
        ))
    } else {
        None
    }
}

pub open spec fn f_directional() -> spec_fn(Seq<u8>) -> Option<(CompassDirection, Data<Visibility>)> {
    |t: Seq<u8>| spec_directional(t)
}

impl CompassDirection {
    /// Decodes the bytes `[a, b)` of `s` as a compass direction.
    pub fn decode(s: &[u8], a: usize, b: usize) -> (r: Option<CompassDirection>)
        requires
            a <= b <= s@.len(),
        ensures
            r == spec_compass(s@.subrange(a as int, b as int)),
    {
        let n = b - a;
        let c0 = if n >= 1 { s[a] } else { 0 };
        let c1 = if n >= 2 { s[a + 1] } else { 0 };
        if n == 1 && c0 == 78 {
            Some(CompassDirection::North)
        } else if n == 2 && c0 == 78 && c1 == 69 {
            Some(CompassDirection::NorthEast)
        } else if n == 1 && c0 == 69 {
            Some(CompassDirection::East)
        } else if n == 2 && c0 == 83 && c1 == 69 {
            Some(CompassDirection::SouthEast)
        } else if n == 1 && c0 == 83 {
            Some(CompassDirection::South)
        } else if n == 2 && c0 == 83 && c1 == 87 {
            Some(CompassDirection::SouthWest)
        } else if n == 1 && c0 == 87 {
            Some(CompassDirection::West)
        } else if n == 2 && c0 == 78 && c1 == 87 {
            Some(CompassDirection::NorthWest)
        } else {
            None
        }
    }
}

fn decode_fraction(s: &[u8], a: usize, b: usize) -> (r: Option<(u32, u32)>)
    requires
        a <= b <= s@.len(),
    ensures
        r == spec_fraction(s@.subrange(a as int, b as int)),
{
    if b - a == 5 && check_digits(s, a, b, 0, 1) && s[a + 1] == 47 && check_digits(s, a, b, 2, 1)
        && s[a + 2] != 48 && s[a + 3] == 83 && s[a + 4] == 77 {
        Some((read_number(s, a, b, 0, 1), read_number(s, a, b, 2, 1)))
    } else {
        None
    }
}

fn check_whole_miles(s: &[u8], a: usize, b: usize) -> (r: bool)
    requires
        a <= b <= s@.len(),
    ensures
        r == is_whole_miles(s@.subrange(a as int, b as int)),
{
    (b - a == 1 || b - a == 2) && check_digits(s, a, b, 0, b - a)
}

impl Visibility {
    /// Decodes the single token `[a, b)` of `s` as a visibility.
    pub fn decode(s: &[u8], a: usize, b: usize) -> (r: Option<Visibility>)
        requires
            a <= b <= s@.len(),
        ensures
            r == spec_visibility(s@.subrange(a as int, b as int)),
    {
        let ghost t = s@.subrange(a as int, b as int);
        if is_exactly(s, a, b, &[67, 65, 86, 79, 75]) || is_exactly(s, a, b, &[83, 75, 67]) {
            return Some(Visibility::CAVOK);
        }
        if b - a == 4 && check_digits(s, a, b, 0, 4) {
            let n = read_number(s, a, b, 0, 4);
            return Some(Visibility::Metres(n as u16));
        }
        if b - a >= 3 && s[b - 2] == 83 && s[b - 1] == 77 {
            assert(s@.subrange(a as int, b - 2) =~= t.subrange(0, t.len() - 2));
            if check_whole_miles(s, a, b - 2) {
                assert(digits_at(t, 0, t.len() - 2));
                let n = read_number(s, a, b, 0, b - a - 2);
                return Some(Visibility::StatuteMiles { numerator: n, denominator: 1 });
            }
        }
        match decode_fraction(s, a, b) {
            Some((n, d)) => Some(Visibility::StatuteMiles { numerator: n, denominator: d }),
            None => None,
        }
    }

    /// Parses a whole text as a visibility.
    pub fn parse(input: &str) -> (r: Result<Visibility, Vec<MetarError<'_>>>)
        ensures
            whole_result(r, spec_visibility_text(input.spec_bytes()), input),
    {
        let s = input.as_bytes();
        let (v, e) = decode_visibility_at(s, 0);
        let o = match v {
            Some(Data::Known(v)) => if e == s.len() {
                Outcome::Value(v)
            } else {
                Outcome::NoMatch
            },
            _ => Outcome::NoMatch,
        };
        let mut expected: Vec<ExpectedNext> = Vec::new();
        expected.push(literal("CAVOK"));
        expected.push(ExpectedNext::Digits);
        finish(input, o, expected)
    }
}

/// The primary visibility at `p` of `s`; see [`spec_visibility_at`].
pub fn decode_visibility_at(s: &[u8], p: usize) -> (r: (Option<Data<Visibility>>, usize))
    requires
        anchored(s@, p as int),
        p <= s@.len(),
    ensures
        anchored(s@, r.1 as int),
        r.0 == spec_visibility_at(s@, p as int).0,
        r.1 == spec_visibility_at(s@, p as int).1,
        p <= r.1 <= s@.len(),
{
    proof {
        lemma_next_tok_bounds(s@, p as int);
    }
    let e = find_tok_end(s, p);
    let q = find_skip_ws(s, e);
    let ghost t = s@.subrange(p as int, e as int);
    if is_exactly(s, p, e, &[47, 47, 47, 47]) {
        return (Some(Data::Unknown), q);
    }
    if let Some(v) = Visibility::decode(s, p, e) {
        return (Some(Data::Known(v)), q);
    }
    if e - p == 7 && check_digits(s, p, e, 0, 4) && s[p + 4] == 78 && s[p + 5] == 68 && s[p + 6] == 86 {
        assert(t.subrange(4, 7) =~= seq![78u8, 68u8, 86u8]);
        let n = read_number(s, p, e, 0, 4);
        return (Some(Data::Known(Visibility::Metres(n as u16))), q);
    }
    if e - p == 7 && !(s[p + 4] == 78 && s[p + 5] == 68 && s[p + 6] == 86) {
        assert(t.subrange(4, 7) != seq![78u8, 68u8, 86u8]) by {
            if t.subrange(4, 7) == seq![78u8, 68u8, 86u8] {
                assert(t.subrange(4, 7)[0] == 78u8);
                assert(t.subrange(4, 7)[1] == 68u8);
                assert(t.subrange(4, 7)[2] == 86u8);
            }
        }
    }
    if check_whole_miles(s, p, e) {
        proof {
            lemma_next_tok_bounds(s@, q as int);
        }
        let e2 = find_tok_end(s, q);
        if let Some((n, d)) = decode_fraction(s, q, e2) {
            let w = read_number(s, p, e, 0, e - p);
            let q2 = find_skip_ws(s, e2);
            proof {
                lemma_number_bound(t, 0, t.len() as int);
                lemma_number_bound(s@.subrange(q as int, e2 as int), 2, 1);
                lemma_number_bound(s@.subrange(q as int, e2 as int), 0, 1);
                reveal_with_fuel(pow10, 3);
            }
            assert(w * d + n < 1000) by (nonlinear_arith)
                requires
                    w < 100,
                    d < 10,
                    n < 10,
            ;
            return (Some(Data::Known(Visibility::StatuteMiles { numerator: w * d + n, denominator: d })), q2);
        }
    }
    (None, p)
}

/// Decodes the token `[a, b)` of `s` as a directional visibility.
pub fn decode_directional(s: &[u8], a: usize, b: usize) -> (r: Option<(CompassDirection, Data<Visibility>)>)
    requires
        a <= b <= s@.len(),
    ensures
        r == spec_directional(s@.subrange(a as int, b as int)),
{
    let ghost t = s@.subrange(a as int, b as int);
    if b - a < 5 {
        return None;
    }
    assert(s@.subrange(a + 4, b as int) =~= t.subrange(4, t.len() as int));
    match CompassDirection::decode(s, a + 4, b) {
        None => None,
        Some(dir) => if check_slashes(s, a, b, 0, 4) {
            Some((dir, Data::Unknown))
        } else if check_digits(s, a, b, 0, 4) {
            let n = read_number(s, a, b, 0, 4);
            Some((dir, Data::Known(Visibility::Metres(n as u16))))
        } else {
            None
        },
    }
}


/// The directional visibilities from `p` on, and where the text after them starts.
pub fn decode_directional_run(s: &[u8], p: usize) -> (r: (Vec<(CompassDirection, Data<Visibility>)>, usize))
    requires
        anchored(s@, p as int),
        p <= s@.len(),
    ensures
        anchored(s@, r.1 as int),
        r.0@ == run(s@, p as int, f_directional()).0,
        r.1 == run(s@, p as int, f_directional()).1,
        p <= r.1 <= s@.len(),
{
    let mut v: Vec<(CompassDirection, Data<Visibility>)> = Vec::new();
    let mut q: usize = p;
    loop
        invariant
            p <= q <= s@.len(),
            anchored(s@, q as int),
            run(s@, p as int, f_directional()).0 == v@ + run(s@, q as int, f_directional()).0,
            run(s@, p as int, f_directional()).1 == run(s@, q as int, f_directional()).1,
        ensures
            p <= q <= s@.len(),
            anchored(s@, q as int),
            run(s@, p as int, f_directional()).0 == v@,
            run(s@, p as int, f_directional()).1 == q,
        decreases s@.len() - q,
    {
        proof {
            lemma_next_tok_bounds(s@, q as int);
        }
        let e = find_tok_end(s, q);
        let nq = find_skip_ws(s, e);
        if nq <= q {
            assert(run(s@, q as int, f_directional()) == (Seq::<(CompassDirection, Data<Visibility>)>::empty(), q as int));
            assert(v@ + Seq::empty() =~= v@);
            break;
        }
        match decode_directional(s, q, e) {
            Some(x) => {
                let ghost before = v@;
                v.push(x);
                assert(v@ =~= before.push(v@.last()));
                assert(v@ + run(s@, nq as int, f_directional()).0 =~= before + (seq![v@.last()] + run(s@, nq as int, f_directional()).0));
                q = nq;
            },
            None => {
                assert(run(s@, q as int, f_directional()) == (Seq::<(CompassDirection, Data<Visibility>)>::empty(), q as int));
                assert(v@ + Seq::empty() =~= v@);
                break;
            },
        }
    }
    (v, q)
}

} // verus!
