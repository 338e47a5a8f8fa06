//! The military airfield colour code.
use vstd::prelude::*;
use crate::lexer::is_exactly;

verus! {

/// Military airport colour code
#[derive(PartialEq, Eq, Copy, Clone, Debug, Hash)]
pub enum ColourCode {
    /// 2500ft cloud base, 8000m visibility
    Blue,
    /// 1500ft cloud base, 5000m visibility
    White,
    /// 700ft cloud base, 3700m visibility
    Green,
    /// 300ft cloud base, 1600m visibility
    Yellow,
    /// 200ft cloud base, 800m visibility
    Amber,
    /// Less than amber
    Red,
}

/// `BLU`, `WHT`, `GRN`, `YLO`, `AMB` or `RED`.
pub open spec fn spec_colour(t: Seq<u8>) -> Option<ColourCode> {
    if t == seq![66u8, 76u8, 85u8] {
        Some(ColourCode::Blue)
    } else if t == seq![87u8, 72u8, 84u8] {
        Some(ColourCode::White)
    } else if t == seq![71u8, 82u8, 78u8] {
        Some(ColourCode::Green)
    } else if t == seq![89u8, 76u8, 79u8] {
        Some(ColourCode::Yellow)
    } else if t == seq![65u8, 77u8, 66u8] {
        Some(ColourCode::Amber)
    } else if t == seq![82u8, 69u8, 68u8] {
        Some(ColourCode::Red)
    } else {
        None
    }
}

impl ColourCode {
    /// Decodes the token `[a, b)` of `s` as a colour code.
    pub fn decode(s: &[u8], a: usize, b: usize) -> (r: Option<ColourCode>)
        requires
            a <= b <= s@.len(),
        ensures
            r == spec_colour(s@.subrange(a as int, b as int)),
    {
        if is_exactly(s, a, b, &[66, 76, 85]) {
            Some(ColourCode::Blue)
        } else if is_exactly(s, a, b, &[87, 72, 84]) {
            Some(ColourCode::White)
        } else if is_exactly(s, a, b, &[71, 82, 78]) {
            Some(ColourCode::Green)
        } else if is_exactly(s, a, b, &[89, 76, 79]) {
            Some(ColourCode::Yellow)
        } else if is_exactly(s, a, b, &[65, 77, 66]) {
            Some(ColourCode::Amber)
        } else if is_exactly(s, a, b, &[82, 69, 68]) {
            Some(ColourCode::Red)
        } else {
            None
        }
    }
}

} // verus!
