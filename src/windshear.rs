//! Windshear warnings: for all runways, or for a list of runways.
use vstd::prelude::*;
use crate::lexer::{anchored, 
    find_skip_ws, find_tok_end, is_exactly, lemma_next_tok_bounds, next_tok, token,
};
use crate::outcome::{FieldError, Outcome};
use crate::runway::{decode_runway, spec_runway_token};
use crate::text::{ascii_chars, ascii_string};

verus! {

/// Windshear warnings
#[derive(PartialEq, Eq, Clone, Debug)]
pub enum WindshearWarnings {
    /// All runways are affected by windshear
    AllRunways,
    /// Only specific runways are affected by windshear
    SpecificRunways(Vec<WindshearGroup>),
}

/// A runway affected by windshear
#[derive(PartialEq, Eq, Clone, Debug)]
pub struct WindshearGroup {
    /// The runway number
    pub runway_number: String,
}

/// The model of [`WindshearWarnings`]: runway designators as text.
pub enum WindshearModel {
    AllRunways,
    SpecificRunways(Seq<Seq<char>>),
}

impl View for WindshearWarnings {
    type V = WindshearModel;

    open spec fn view(&self) -> WindshearModel {
        match self {
            WindshearWarnings::AllRunways => WindshearModel::AllRunways,
            WindshearWarnings::SpecificRunways(v) => WindshearModel::SpecificRunways(
                v@.map_values(|g: WindshearGroup| g.runway_number@),
            ),
        }
    }
}

pub open spec fn is_ws_token(t: Seq<u8>) -> bool {
    t == seq![87u8, 83u8]
}

/// The groups `WS R<runway>` from `p` on: their designators, where the text
/// after them starts, and the check a designator failed, if one did.
pub open spec fn spec_ws_groups(s: Seq<u8>, p: int) -> (Seq<Seq<char>>, int, Option<FieldError>)
    decreases s.len() - p,
{
    let q = next_tok(s, p);
    if 0 <= p < q <= s.len() && is_ws_token(token(s, p)) && q < next_tok(s, q) <= s.len() {
        match spec_runway_token(token(s, q)) {
            Outcome::Value(r) => {
                let rest = spec_ws_groups(s, next_tok(s, q));
                (seq![ascii_chars(r)] + rest.0, rest.1, rest.2)
            },
            Outcome::Invalid(f) => (Seq::empty(), q, Some(f)),
            Outcome::NoMatch => (Seq::empty(), p, None),
        }
    } else {
        (Seq::empty(), p, None)
    }
}

/// The windshear block at `p`, where the text after it starts, and the
/// check a designator failed, if one did (then the position is that token's).
pub open spec fn spec_windshear_at(s: Seq<u8>, p: int) -> (Option<WindshearModel>, int, Option<FieldError>) {
    let q = next_tok(s, p);
    let q2 = next_tok(s, q);
    if is_ws_token(token(s, p)) && token(s, q) == seq![65u8, 76u8, 76u8] && token(s, q2) == seq![82u8, 87u8, 89u8] {
        (Some(WindshearModel::AllRunways), next_tok(s, q2), None)
    } else {
        let g = spec_ws_groups(s, p);
        if g.2 is Some {
            (None, g.1, g.2)
        } else if g.0.len() == 0 {
            (None, p, None)
        } else {
            (Some(WindshearModel::SpecificRunways(g.0)), g.1, None)
        }
    }
}

/// The windshear block at `p` of `s`; see [`spec_windshear_at`].
pub fn decode_windshear_at(s: &[u8], p: usize) -> (r: (Option<WindshearWarnings>, usize, Option<FieldError>))
    requires
        anchored(s@, p as int),
        p <= s@.len(),
    ensures
        anchored(s@, r.1 as int),
        match r.0 {
            Some(w) => spec_windshear_at(s@, p as int).0 == Some(w@),
            None => spec_windshear_at(s@, p as int).0 is None,
        },
        r.1 == spec_windshear_at(s@, p as int).1,
        r.2 == spec_windshear_at(s@, p as int).2,
        p <= r.1 <= s@.len(),
{
    proof {
        lemma_next_tok_bounds(s@, p as int);
    }
    let e = find_tok_end(s, p);
    let q = find_skip_ws(s, e);
    proof {
        lemma_next_tok_bounds(s@, q as int);
    }
    let e1 = find_tok_end(s, q);
    let q2 = find_skip_ws(s, e1);
    proof {
        lemma_next_tok_bounds(s@, q2 as int);
    }
    let e2 = find_tok_end(s, q2);
    if is_exactly(s, p, e, &[87, 83]) && is_exactly(s, q, e1, &[65, 76, 76]) && is_exactly(s, q2, e2, &[82, 87, 89]) {
        let n = find_skip_ws(s, e2);
        return (Some(WindshearWarnings::AllRunways), n, None);
    }
    let mut groups: Vec<WindshearGroup> = Vec::new();
    let mut c: usize = p;
    let ghost names = |g: WindshearGroup| g.runway_number@;
    loop
        invariant
            p <= c <= s@.len(),
            anchored(s@, c as int),
            spec_ws_groups(s@, p as int).0 == groups@.map_values(names) + spec_ws_groups(s@, c as int).0,
            spec_ws_groups(s@, p as int).1 == spec_ws_groups(s@, c as int).1,
            spec_ws_groups(s@, p as int).2 == spec_ws_groups(s@, c as int).2,
            names == (|g: WindshearGroup| g.runway_number@),
        ensures
            p <= c <= s@.len(),
            anchored(s@, c as int),
            spec_ws_groups(s@, p as int).0 == groups@.map_values(names),
            spec_ws_groups(s@, p as int).1 == c,
            names == (|g: WindshearGroup| g.runway_number@),
            spec_ws_groups(s@, p as int).2 is None,
        decreases s@.len() - c,
    {
        proof {
            lemma_next_tok_bounds(s@, c as int);
        }
        let ce = find_tok_end(s, c);
        let cq = find_skip_ws(s, ce);
        proof {
            lemma_next_tok_bounds(s@, cq as int);
        }
        let re = find_tok_end(s, cq);
        let rq = find_skip_ws(s, re);
        if !(c < cq && is_exactly(s, c, ce, &[87, 83]) && cq < rq) {
            assert(groups@.map_values(names) + Seq::empty() =~= groups@.map_values(names));
            break;
        }
        let ok = if re - cq >= 2 && s[cq] == 82 {
            assert(s@.subrange(cq + 1, re as int) =~= token(s@, cq as int).subrange(1, token(s@, cq as int).len() as int));
            decode_runway(s, cq + 1, re)
        } else {
            Outcome::NoMatch
        };
        match ok {
            Outcome::Value(_) => {
                let runway_number = ascii_string(s, cq + 1, re);
                let ghost before = groups@;
                groups.push(WindshearGroup { runway_number });
                assert(groups@.map_values(names) =~= before.map_values(names).push(groups@.last().runway_number@));
                assert(groups@.map_values(names) + spec_ws_groups(s@, rq as int).0 =~= before.map_values(names)
                    + (seq![groups@.last().runway_number@] + spec_ws_groups(s@, rq as int).0));
                c = rq;
            },
            Outcome::Invalid(f) => {
                return (None, cq, Some(f));
            },
            Outcome::NoMatch => {
                assert(groups@.map_values(names) + Seq::empty() =~= groups@.map_values(names));
                break;
            },
        }
    }
    if groups.len() == 0 {
        (None, p, None)
    } else {
        (Some(WindshearWarnings::SpecificRunways(groups)), c, None)
    }
}

} // verus!
