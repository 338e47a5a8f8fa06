//! Facts about the grammars that relate several calls or hold of whole
//! families of inputs.
use vstd::prelude::*;
use vstd::string::StringSliceAdditionalSpecFns;
use crate::cloud::{spec_cloud_layer, spec_vertical, CloudLayer, VerticalVisibility};
use crate::lexer::token;
use crate::metar::spec_cloud_section;
use crate::visibility::{spec_directional, spec_visibility_at, CompassDirection, Visibility};
use crate::data::Data;
use crate::diag::whole_result;
use crate::error::{expected_models, variant_of, ErrorVariant, MetarError};
use crate::lexer::{digits_at, number_at, slashes_at};
use crate::metar::{report_result, Metar};
use crate::render::drawable;
use crate::outcome::{FieldError, Outcome};
use crate::pressure::{spec_pressure, spec_temperatures, Pressure};
use crate::runway::{spec_rvr_tail, spec_rvr_value, spec_small, RvrTrend, RvrUnit};
use crate::sea::spec_sea_inner;
use crate::time::{spec_time, Time};
use crate::wind::{lit_kph, lit_kt, lit_mps, spec_direction, spec_gust, spec_speed, spec_varying, WindDirection, WindSpeed};

verus! {

/// The text `ddhhmmZ` of a day, an hour and a minute below 100.
pub open spec fn time_text(d: int, h: int, m: int) -> Seq<u8> {
    seq![
        (48 + d / 10) as u8,
        (48 + d % 10) as u8,
        (48 + h / 10) as u8,
        (48 + h % 10) as u8,
        (48 + m / 10) as u8,
        (48 + m % 10) as u8,
        90u8,
    ]
}

proof fn lemma_two_digits(t: Seq<u8>, i: int, v: int)
    requires
        0 <= v < 100,
        0 <= i,
        i + 2 <= t.len(),
        t[i] == (48 + v / 10) as u8,
        t[i + 1] == (48 + v % 10) as u8,
    ensures
        digits_at(t, i, 2),
        number_at(t, i, 2) == v,
{
    assert(number_at(t, i, 2) == number_at(t, i, 1) * 10 + (t[i + 1] - 48));
    assert(number_at(t, i, 1) == number_at(t, i, 0) * 10 + (t[i] - 48));
}

/// An observation time `ddhhmmZ` with day at most 31, hour at most 23 and
/// minute at most 59 parses to exactly that day, hour and minute; a day
/// above 31, else an hour above 23, else a minute above 59 is rejected with
/// the diagnostic for that field.
pub proof fn lemma_time_round(d: int, h: int, m: int, input: &str, r: Result<Time, Vec<MetarError>>)
    requires
        0 <= d < 100,
        0 <= h < 100,
        0 <= m < 100,
        input.spec_bytes() == time_text(d, h, m),
        whole_result(r, spec_time(input.spec_bytes()), input),
    ensures
        d <= 31 && h <= 23 && m <= 59 ==> r == Ok::<Time, Vec<MetarError>>(
            Time { date: d as u8, hour: h as u8, minute: m as u8 },
        ),
        d > 31 ==> (r matches Err(es) && es@.len() == 1 && es@[0].variant is InvalidDate),
        d <= 31 && h > 23 ==> (r matches Err(es) && es@.len() == 1 && es@[0].variant is InvalidHour),
        d <= 31 && h <= 23 && m > 59 ==> (r matches Err(es) && es@.len() == 1 && es@[0].variant is InvalidMinute),
{
    let t = time_text(d, h, m);
    lemma_two_digits(t, 0, d);
    lemma_two_digits(t, 2, h);
    lemma_two_digits(t, 4, m);
    assert(digits_at(t, 0, 6));
}

/// Every field that may be reported as unknown decodes, from exactly its
/// number of slashes, to "unknown" and not to a mismatch.
pub proof fn lemma_slashes_are_unknown()
    ensures
        spec_direction(seq![47u8, 47u8, 47u8]) == Outcome::Value(WindDirection::Heading(Data::Unknown)),
        spec_speed(seq![47u8, 47u8] + lit_kt()) == Some(WindSpeed::Knots { speed: Data::Unknown, gusting: None }),
        spec_speed(seq![47u8, 47u8] + lit_mps()) == Some(
            WindSpeed::MetresPerSecond { speed: Data::Unknown, gusting: None },
        ),
        spec_speed(seq![47u8, 47u8] + lit_kph()) == Some(
            WindSpeed::KilometresPerHour { speed: Data::Unknown, gusting: None },
        ),
        spec_gust(seq![71u8, 47u8, 47u8], 2) == Some(Some(Data::<u32>::Unknown)),
        spec_varying(seq![47u8, 47u8, 47u8, 86u8, 47u8, 47u8, 47u8]) == Outcome::Value(
            (Data::<u32>::Unknown, Data::<u32>::Unknown),
        ),
        spec_cloud_layer(seq![47u8, 47u8, 47u8, 47u8, 47u8, 47u8, 47u8, 47u8, 47u8]) == Some(
            CloudLayer { density: Data::Unknown, kind: Data::Unknown, height: Data::Unknown },
        ),
        spec_vertical(seq![86u8, 86u8, 47u8, 47u8, 47u8]) == Some(VerticalVisibility::ReducedByUnknownAmount),
        spec_temperatures(seq![47u8, 47u8, 47u8, 47u8, 47u8]) == Some((Data::<i32>::Unknown, Data::<i32>::Unknown)),
        spec_pressure(seq![81u8, 47u8, 47u8, 47u8, 47u8]) == Some(Pressure::Hectopascals(Data::Unknown)),
        spec_pressure(seq![65u8, 47u8, 47u8, 47u8, 47u8]) == Some(Pressure::InchesOfMercury(Data::Unknown)),
        spec_rvr_value(seq![47u8, 47u8, 47u8, 47u8]) == Some((Data::<crate::runway::RvrValue>::Unknown, 4int)),
        spec_rvr_tail(seq![47u8, 47u8]) == Some((RvrUnit::Metres, Data::<RvrTrend>::Unknown)),
        spec_small(seq![47u8], 1) == Some(Data::<u8>::Unknown),
        spec_small(seq![47u8, 47u8], 2) == Some(Data::<u8>::Unknown),
        spec_sea_inner(seq![47u8, 47u8]) == Some(Data::<crate::sea::SeaConditionInner>::Unknown),
{
    let s3 = seq![47u8, 47u8, 47u8];
    let kt = seq![47u8, 47u8] + lit_kt();
    assert(kt =~= seq![47u8, 47u8, 75u8, 84u8]);
    assert(seq![47u8, 47u8] + lit_mps() =~= seq![47u8, 47u8, 77u8, 80u8, 83u8]);
    assert(seq![47u8, 47u8] + lit_kph() =~= seq![47u8, 47u8, 75u8, 80u8, 72u8]);
    let v = seq![47u8, 47u8, 47u8, 86u8, 47u8, 47u8, 47u8];
    assert(v.subrange(0, 3) =~= s3);
    assert(v.subrange(4, 7) =~= s3);
    let c = seq![47u8, 47u8, 47u8, 47u8, 47u8, 47u8, 47u8, 47u8, 47u8];
    assert(c.subrange(0, 3) =~= s3);
    assert(c.subrange(3, 6) =~= s3);
    assert(c.subrange(6, 9) =~= s3);
    let tt = seq![47u8, 47u8, 47u8, 47u8, 47u8];
    assert(tt.subrange(0, 2) =~= seq![47u8, 47u8]);
    assert(tt.subrange(3, 5) =~= seq![47u8, 47u8]);
}

/// In a report, four slashes where the visibility stands, two slashes where
/// the weather stands and four slashes before a direction decode to
/// "unknown" and not to a mismatch.
pub proof fn lemma_slashed_groups(s: Seq<u8>, p: int, cavok: bool)
    requires
        0 <= p <= s.len(),
    ensures
        token(s, p) == seq![47u8, 47u8, 47u8, 47u8] ==> spec_visibility_at(s, p).0 == Some(Data::<Visibility>::Unknown),
        token(s, p) == seq![47u8, 47u8] ==> spec_cloud_section(s, p, cavok).0 is Unknown,
        token(s, p) == seq![47u8, 47u8, 47u8, 47u8, 78u8] ==> spec_directional(token(s, p)) == Some(
            (CompassDirection::North, Data::<Visibility>::Unknown),
        ),
{
    let t = token(s, p);
    if t == seq![47u8, 47u8, 47u8, 47u8, 78u8] {
        assert(slashes_at(t, 0, 4));
        assert(t.subrange(4, 5) =~= seq![78u8]);
    }
    if t == seq![47u8, 47u8] {
        assert(t != seq![83u8, 75u8, 67u8]);
        assert(t != seq![67u8, 76u8, 82u8]);
    }
}

/// Parsing is a function of the text alone: two results of parsing the same
/// text are both reports with the same content, or both one diagnostic with
/// the same span, the same failed check, the same character found and the
/// same list of what was expected.
pub proof fn lemma_parse_deterministic<'a>(
    data: &'a str,
    r1: Result<Metar, Vec<MetarError<'a>>>,
    r2: Result<Metar, Vec<MetarError<'a>>>,
)
    requires
        report_result(r1, data),
        report_result(r2, data),
    ensures
        r1 is Ok <==> r2 is Ok,
        r1 matches Ok(a) ==> (r2 matches Ok(b) && a@ == b@),
        r1 matches Err(e1) ==> (r2 matches Err(e2) && e1@.len() == 1 && e2@.len() == 1
            && e1@[0].start == e2@[0].start && e1@[0].end == e2@[0].end
            && (e1@[0].variant is ExpectedFound <==> e2@[0].variant is ExpectedFound)
            && (forall|f: FieldError| variant_of(e1@[0].variant, f) <==> variant_of(e2@[0].variant, f))
            && (e1@[0].variant matches ErrorVariant::ExpectedFound { expected: x1, found: f1 }
                ==> (e2@[0].variant matches ErrorVariant::ExpectedFound { expected: x2, found: f2 } && f1 == f2
                && expected_models(x1@) == expected_models(x2@)))),
{
}

/// Every diagnostic of a failed parse spans part of the text with both ends
/// on character boundaries, so rendering it always draws the underline.
pub proof fn lemma_diagnostic_drawable<'a>(data: &'a str, r: Result<Metar, Vec<MetarError<'a>>>)
    requires
        report_result(r, data),
    ensures
        r matches Err(es) ==> (es@.len() == 1 && drawable(data.spec_bytes(), es@[0].start as int, es@[0].end as int)),
{
}

} // verus!
