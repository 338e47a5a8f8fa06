//! The report assembler: every group of a METAR, in order, folded into one record.
use vstd::prelude::*;
use vstd::string::StringSliceAdditionalSpecFns;
use vstd::utf8::{encode_utf8, encode_utf8_valid_utf8, is_char_boundary};
use crate::cloud::{
    decode_layer_run, decode_vicinity_run, f_layer, f_vicinity, spec_clouds, spec_vertical, vicinity_views,
    CloudLayer, CloudType, Clouds, VerticalVisibility,
};
use crate::colour::{spec_colour, ColourCode};
use crate::data::Data;
use crate::diag::{found_at, literal};
use crate::error::{expected_models, merge_models, variant_of, merge_expected, ErrorVariant, ExpectedModel, ExpectedNext, MetarError};
use crate::lexer::{anchored, lemma_anchored_boundary, 
    find_skip_ws, find_tok_end, is_exactly, is_upper_or_digit, is_ws, lemma_next_tok_bounds, next_tok,
    skip_ws, tok_end, token,
};
use crate::outcome::{FieldError, Outcome};
use crate::pressure::{decode_temperatures, spec_pressure, spec_temperatures, Pressure};
use crate::run::{run, run_checked};
use crate::runway::{
    decode_rvr_run, decode_runway_condition_run, f_runway_condition, f_rvr, runway_condition_views, rvr_views,
    RunwayCondition, RunwayContamination, RunwayVisualRange, RvrTrend, RvrUnit, RvrValue,
};
use crate::text::{ascii_chars, ascii_string};
use crate::time::{spec_time, Time};
use crate::trend::{decode_trends, spec_trends, trend_views, Trend, TrendModel};
use crate::visibility::{
    decode_directional_run, decode_visibility_at, f_directional, spec_visibility_at, CompassDirection, Visibility,
};
use crate::weather::{decode_recent, decode_weather_run, f_weather, spec_recent, weather_views, Weather,
    WeatherCondition, WeatherIntensity};
use crate::wind::{decode_wind_at, spec_wind_at, Wind, WindDirection, WindSpeed};
use crate::windshear::{decode_windshear_at, spec_windshear_at, WindshearModel, WindshearWarnings};

verus! {

/// The kind of METAR produced.
#[derive(PartialEq, Eq, Copy, Clone, Debug, Hash)]
pub enum Kind {
    /// This is a regular METAR.
    Normal,
    /// This METAR was generated automatically without human oversight
    Automatic,
    /// This METAR corrects a previously issued METAR
    Correction,
}

/// A complete METAR
#[derive(PartialEq, Eq, Clone, Debug)]
pub struct Metar {
    /// The station making the METAR measurement
    pub station: String,
    /// The measurement time
    pub time: Time,
    /// The kind of METAR, i.e. Normal, Automatic or Correction
    pub kind: Kind,
    /// The current wind information
    pub wind: Wind,
    /// The current visibility
    pub visibility: Data<Visibility>,
    /// If the visibility is reduced further in a specific direction,
    /// that will be covered here.
    pub reduced_directional_visibility: Vec<(CompassDirection, Data<Visibility>)>,
    /// Specific visual ranges for runways
    pub rvr: Vec<RunwayVisualRange>,
    /// The current clouds
    pub clouds: Clouds,
    /// The current cloud layers
    pub cloud_layers: Vec<CloudLayer>,
    /// The current vertical visibility, in hundreds of feet
    pub vert_visibility: Option<VerticalVisibility>,
    /// The current weather conditions
    pub weather: Data<Vec<Weather>>,
    /// The current temperature
    pub temperature: Data<i32>,
    /// The current dewpoint
    pub dewpoint: Data<i32>,
    /// The current air pressure
    pub pressure: Pressure,
    /// The military colour code, if given
    pub colour_code: Option<ColourCode>,
    /// Additional recent weather conditions
    pub recent_weather: Vec<WeatherCondition>,
    /// Windshear warnings
    pub windshear_warnings: Option<WindshearWarnings>,
    /// The condition of runways
    pub runway_conditions: Vec<RunwayCondition>,
    /// Trends of the weather changing in the near future
    pub trends: Vec<Trend>,
    /// Clouds in the vicinity may be specified separately
    pub clouds_in_vicinity: Vec<(Vec<CompassDirection>, Data<CloudType>)>,
    /// Remarks added on to the METAR
    pub remarks: Option<String>,
}

/// The model of a [`Metar`]: every list as a sequence of models, and the
/// remarks as the UTF-8 bytes they stand for.
pub struct MetarModel {
    pub station: Seq<char>,
    pub time: Time,
    pub kind: Kind,
    pub wind: Wind,
    pub visibility: Data<Visibility>,
    pub reduced_directional_visibility: Seq<(CompassDirection, Data<Visibility>)>,
    pub rvr: Seq<(Seq<char>, Data<RvrValue>, RvrUnit, Data<RvrTrend>)>,
    pub clouds: Clouds,
    pub cloud_layers: Seq<CloudLayer>,
    pub vert_visibility: Option<VerticalVisibility>,
    pub weather: Data<Seq<(WeatherIntensity, Seq<WeatherCondition>)>>,
    pub temperature: Data<i32>,
    pub dewpoint: Data<i32>,
    pub pressure: Pressure,
    pub colour_code: Option<ColourCode>,
    pub recent_weather: Seq<WeatherCondition>,
    pub windshear_warnings: Option<WindshearModel>,
    pub runway_conditions: Seq<(Seq<char>, RunwayContamination, Data<u8>)>,
    pub trends: Seq<TrendModel>,
    pub clouds_in_vicinity: Seq<(Seq<CompassDirection>, Data<CloudType>)>,
    pub remarks: Option<Seq<u8>>,
}

impl View for Metar {
    type V = MetarModel;

    open spec fn view(&self) -> MetarModel {
        MetarModel {
            station: self.station@,
            time: self.time,
            kind: self.kind,
            wind: self.wind,
            visibility: self.visibility,
            reduced_directional_visibility: self.reduced_directional_visibility@,
            rvr: rvr_views(self.rvr@),
            clouds: self.clouds,
            cloud_layers: self.cloud_layers@,
            vert_visibility: self.vert_visibility,
            weather: match self.weather {
                Data::Known(v) => Data::Known(weather_views(v@)),
                Data::Unknown => Data::Unknown,
            },
            temperature: self.temperature,
            dewpoint: self.dewpoint,
            pressure: self.pressure,
            colour_code: self.colour_code,
            recent_weather: self.recent_weather@,
            windshear_warnings: match self.windshear_warnings {
                Some(w) => Some(w@),
                None => None,
            },
            runway_conditions: runway_condition_views(self.runway_conditions@),
            trends: trend_views(self.trends@),
            clouds_in_vicinity: vicinity_views(self.clouds_in_vicinity@),
            remarks: match self.remarks {
                Some(r) => Some(encode_utf8(r@)),
                None => None,
            },
        }
    }
}

/// Where the first group starts: after leading whitespace and an optional `METAR`.
pub open spec fn spec_start(s: Seq<u8>) -> int {
    let p = skip_ws(s, 0);
    if token(s, p) == seq![77u8, 69u8, 84u8, 65u8, 82u8] {
        next_tok(s, p)
    } else {
        p
    }
}

/// Four upper-case letters or digits.
pub open spec fn is_station(t: Seq<u8>) -> bool {
    t.len() == 4 && forall|k: int| 0 <= k < 4 ==> is_upper_or_digit(#[trigger] t[k])
}

/// `AUTO` or `COR`.
pub open spec fn spec_kind(t: Seq<u8>) -> Option<Kind> {
    if t == seq![65u8, 85u8, 84u8, 79u8] {
        Some(Kind::Automatic)
    } else if t == seq![67u8, 79u8, 82u8] {
        Some(Kind::Correction)
    } else {
        None
    }
}

/// The wind of a report that gives none.
pub open spec fn default_wind() -> Wind {
    Wind::Present {
        dir: WindDirection::Heading(Data::Unknown),
        speed: WindSpeed::Knots { speed: Data::Unknown, gusting: None },
        varying: None,
    }
}

/// The weather, vertical visibility, cloud state and cloud layers at `p`,
/// and where the text after them starts. After CAVOK a report with no cloud
/// group at all has no cloud detected.
pub open spec fn spec_cloud_section(s: Seq<u8>, p: int, cavok: bool) -> (
    Data<Seq<(WeatherIntensity, Seq<WeatherCondition>)>>,
    Option<VerticalVisibility>,
    Clouds,
    Seq<CloudLayer>,
    int,
) {
    let t = token(s, p);
    if t == seq![83u8, 75u8, 67u8] || t == seq![67u8, 76u8, 82u8] {
        (Data::Known(Seq::empty()), None, Clouds::NoCloudDetected, Seq::empty(), next_tok(s, p))
    } else {
        let wx = if t == seq![47u8, 47u8] {
            (Data::Unknown, next_tok(s, p))
        } else {
            (Data::Known(run(s, p, f_weather()).0), run(s, p, f_weather()).1)
        };
        let g1 = wx.1;
        let vv = spec_vertical(token(s, g1));
        let g2 = if vv is Some { next_tok(s, g1) } else { g1 };
        let state = spec_clouds(token(s, g2));
        let g3 = if state is Some { next_tok(s, g2) } else { g2 };
        let layers = run(s, g3, f_layer());
        let clouds = match state {
            Some(c) => c,
            None => if cavok && layers.0.len() == 0 {
                Clouds::NoCloudDetected
            } else {
                Clouds::CloudLayers
            },
        };
        (wx.0, vv, clouds, layers.0, layers.1)
    }
}

pub open spec fn spec_recent_run(s: Seq<u8>, p: int) -> (Seq<WeatherCondition>, int)
    decreases s.len() - p,
{
    if 0 <= p < next_tok(s, p) <= s.len() && spec_recent(token(s, p)) is Some {
        let rest = spec_recent_run(s, next_tok(s, p));
        (spec_recent(token(s, p))->0 + rest.0, rest.1)
    } else {
        (Seq::empty(), p)
    }
}

/// The first `=` at or after `i`, or the end of the text.
pub open spec fn text_end(s: Seq<u8>, i: int) -> int
    decreases s.len() - i,
{
    if 0 <= i < s.len() && s[i] != 61 {
        text_end(s, i + 1)
    } else {
        i
    }
}

/// `b` with trailing whitespace after `a` taken off.
pub open spec fn trim_back(s: Seq<u8>, a: int, b: int) -> int
    decreases b - a,
{
    if a < b && 0 < b <= s.len() && is_ws(s[b - 1]) {
        trim_back(s, a, b - 1)
    } else {
        b
    }
}

/// The span of the remark text after `RMK` at `p` (trimmed, up to `=` or the
/// end), and where the text after the remarks starts.
pub open spec fn spec_remarks_at(s: Seq<u8>, p: int) -> (Option<(int, int)>, int) {
    if token(s, p) == seq![82u8, 77u8, 75u8] {
        let a = skip_ws(s, p + 3);
        let e = text_end(s, a);
        (Some((a, trim_back(s, a, e))), e)
    } else {
        (None, p)
    }
}

/// The bytes `[a, b)` of `s` can be cut out as text: `a` is a character
/// boundary of `s`, and `b` one of what follows `a`.
pub open spec fn text_splits(s: Seq<u8>, a: int, b: int) -> bool {
    is_char_boundary(s, a) && is_char_boundary(s.subrange(a, s.len() as int), b - a)
}

/// The station, time and kind at the start of the text, and where the text
/// after them starts.
pub open spec fn spec_header(s: Seq<u8>) -> Result<(Seq<u8>, Time, Kind, int), (int, Option<FieldError>)> {
    let g0 = spec_start(s);
    let station = token(s, g0);
    let g1 = next_tok(s, g0);
    if !is_station(station) {
        Err((g0, None))
    } else {
        match spec_time(token(s, g1)) {
            Outcome::NoMatch => Err((g1, None)),
            Outcome::Invalid(f) => Err((g1, Some(f))),
            Outcome::Value(time) => {
                let g2 = next_tok(s, g1);
                match spec_kind(token(s, g2)) {
                    Some(k) => Ok((station, time, k, next_tok(s, g2))),
                    None => Ok((station, time, Kind::Normal, g2)),
                }
            },
        }
    }
}

/// The wind, visibility, directional visibilities and runway visual ranges
/// at `p`, and where the text after them starts.
pub open spec fn spec_front(s: Seq<u8>, p: int) -> Result<(
    Wind,
    Data<Visibility>,
    Seq<(CompassDirection, Data<Visibility>)>,
    Seq<(Seq<char>, Data<RvrValue>, RvrUnit, Data<RvrTrend>)>,
    int,
), (int, Option<FieldError>)> {
    let w = spec_wind_at(s, p);
    match w.0 {
        Outcome::Invalid(f) => Err((w.1, Some(f))),
        _ => {
            let wind = match w.0 {
                Outcome::Value(x) => x,
                _ => default_wind(),
            };
            let v = spec_visibility_at(s, w.1);
            let visibility = match v.0 {
                Some(x) => x,
                None => Data::Unknown,
            };
            let dirvis = run(s, v.1, f_directional());
            let rvr = run_checked(s, dirvis.1, f_rvr());
            match rvr.2 {
                Some(f) => Err((rvr.1, Some(f))),
                None => Ok((wind, visibility, dirvis.0, rvr.0, rvr.1)),
            }
        },
    }
}

/// The temperatures, pressure and colour code at `p`, and where the text
/// after them starts.
pub open spec fn spec_readings(s: Seq<u8>, p: int) -> (Data<i32>, Data<i32>, Pressure, Option<ColourCode>, int) {
    let tp = spec_temperatures(token(s, p));
    let g4 = if tp is Some { next_tok(s, p) } else { p };
    let pr = spec_pressure(token(s, g4));
    let g5 = if pr is Some { next_tok(s, g4) } else { g4 };
    let colour = spec_colour(token(s, g5));
    let g6 = if colour is Some { next_tok(s, g5) } else { g5 };
    (
        match tp {
            Some((t, _)) => t,
            None => Data::Unknown,
        },
        match tp {
            Some((_, d)) => d,
            None => Data::Unknown,
        },
        match pr {
            Some(x) => x,
            None => Pressure::Hectopascals(Data::Unknown),
        },
        colour,
        g6,
    )
}

/// The windshear block, runway conditions, trends and clouds in the vicinity
/// at `p`, and where the text after them starts.
pub open spec fn spec_back(s: Seq<u8>, p: int) -> Result<(
    Option<WindshearModel>,
    Seq<(Seq<char>, RunwayContamination, Data<u8>)>,
    Seq<TrendModel>,
    Seq<(Seq<CompassDirection>, Data<CloudType>)>,
    int,
), (int, Option<FieldError>)> {
    let ws = spec_windshear_at(s, p);
    if ws.2 is Some {
        Err((ws.1, ws.2))
    } else {
        let rc = run_checked(s, ws.1, f_runway_condition());
        if rc.2 is Some {
            Err((rc.1, rc.2))
        } else {
            let tr = spec_trends(s, rc.1);
            if tr.2 is Some {
                Err((tr.1, tr.2))
            } else {
                let vc = run(s, tr.1, f_vicinity());
                Ok((ws.0, rc.0, tr.0, vc.0, vc.1))
            }
        }
    }
}

/// The remarks at `p` as the span of their text, and where the text after
/// them starts, or the position whose remark text cannot be cut out.
pub open spec fn spec_tail(s: Seq<u8>, p: int) -> Result<(Option<Seq<u8>>, int), (int, Option<FieldError>)> {
    let rm = spec_remarks_at(s, p);
    match rm.0 {
        Some((a, b)) => if text_splits(s, a, b) {
            Ok((Some(s.subrange(a, b)), rm.1))
        } else {
            Err((p, None))
        },
        None => Ok((None, rm.1)),
    }
}

/// Where the end of a report must be: after an optional `=` and whitespace.
pub open spec fn spec_finish(s: Seq<u8>, p: int) -> int {
    if 0 <= p < s.len() && s[p] == 61 {
        skip_ws(s, p + 1)
    } else {
        p
    }
}

/// A METAR decoded from its text: the report, or where the diagnostic
/// points and the check that failed (none when nothing there matched).
pub open spec fn spec_report(s: Seq<u8>) -> Result<MetarModel, (int, Option<FieldError>)> {
    match spec_header(s) {
        Err(e) => Err(e),
        Ok((station, time, kind, g1)) => match spec_front(s, g1) {
            Err(e) => Err(e),
            Ok((wind, visibility, dirvis, rvr, g2)) => {
                let c = spec_cloud_section(s, g2, visibility == Data::Known(Visibility::CAVOK));
                let rd = spec_readings(s, c.4);
                let recent = spec_recent_run(s, rd.4);
                match spec_back(s, recent.1) {
                    Err(e) => Err(e),
                    Ok((ws, rc, tr, vc, g3)) => match spec_tail(s, g3) {
                        Err(e) => Err(e),
                        Ok((remarks, g4)) => if spec_finish(s, g4) != s.len() {
                            Err((spec_finish(s, g4), None))
                        } else {
                            Ok(MetarModel {
                                station: ascii_chars(station),
                                time,
                                kind,
                                wind,
                                visibility,
                                reduced_directional_visibility: dirvis,
                                rvr,
                                clouds: c.2,
                                cloud_layers: c.3,
                                vert_visibility: c.1,
                                weather: c.0,
                                temperature: rd.0,
                                dewpoint: rd.1,
                                pressure: rd.2,
                                colour_code: rd.3,
                                recent_weather: recent.0,
                                windshear_warnings: ws,
                                runway_conditions: rc,
                                trends: tr,
                                clouds_in_vicinity: vc,
                                remarks,
                            })
                        },
                    },
                }
            },
        },
    }
}

/// What was expected after the header at the start of `s`; see [`note`].
pub open spec fn header_notes(s: Seq<u8>, st: (Seq<ExpectedModel>, int)) -> (Seq<ExpectedModel>, int) {
    let g0 = spec_start(s);
    let g1 = next_tok(s, g0);
    if !is_station(token(s, g0)) {
        note(st, g0, seq![ExpectedModel::SomethingElse])
    } else {
        match spec_time(token(s, g1)) {
            Outcome::NoMatch => note(st, g1, seq![ExpectedModel::Digits]),
            Outcome::Invalid(_) => st,
            Outcome::Value(_) => {
                let g2 = next_tok(s, g1);
                if spec_kind(token(s, g2)) is Some {
                    st
                } else {
                    note(st, g2, lits(seq!["AUTO", "COR"]))
                }
            },
        }
    }
}

/// What was expected after the groups of [`spec_front`] at `p`.
pub open spec fn front_notes(s: Seq<u8>, p: int, st: (Seq<ExpectedModel>, int)) -> (Seq<ExpectedModel>, int) {
    let w = spec_wind_at(s, p);
    match w.0 {
        Outcome::Invalid(_) => st,
        _ => {
            let st1 = if w.0 is NoMatch { note(st, p, lits(seq!["CALM", "VRB", "///"])) } else { st };
            let v = spec_visibility_at(s, w.1);
            let st2 = if v.0 is None { note(st1, w.1, lits(seq!["CAVOK", "////"])) } else { st1 };
            let dirvis = run(s, v.1, f_directional());
            let rvr = run_checked(s, dirvis.1, f_rvr());
            if rvr.2 is Some {
                st2
            } else {
                note(st2, rvr.1, lits(seq!["R"]))
            }
        },
    }
}

pub open spec fn colour_names() -> Seq<&'static str> {
    seq!["BLU", "WHT", "GRN", "YLO", "AMB", "RED"]
}

pub open spec fn cloud_names() -> Seq<&'static str> {
    seq!["FEW", "SCT", "BKN", "OVC", "NCD", "NSC", "VV"]
}

pub open spec fn trend_names() -> Seq<&'static str> {
    seq!["NOSIG", "NSW", "BECMG", "TEMPO"]
}

/// What was expected after the groups of [`spec_readings`] at `p`.
pub open spec fn readings_notes(s: Seq<u8>, p: int, st: (Seq<ExpectedModel>, int)) -> (Seq<ExpectedModel>, int) {
    let tp = spec_temperatures(token(s, p));
    let g4 = if tp is Some { next_tok(s, p) } else { p };
    let st1 = if tp is None { note(st, p, seq![ExpectedModel::Digits] + lits(seq!["M", "//"])) } else { st };
    let pr = spec_pressure(token(s, g4));
    let g5 = if pr is Some { next_tok(s, g4) } else { g4 };
    let st2 = if pr is None { note(st1, g4, lits(seq!["Q", "A"])) } else { st1 };
    if spec_colour(token(s, g5)) is None {
        note(st2, g5, lits(colour_names()))
    } else {
        st2
    }
}

/// What was expected after the groups of [`spec_back`] at `p`.
pub open spec fn back_notes(s: Seq<u8>, p: int, st: (Seq<ExpectedModel>, int)) -> (Seq<ExpectedModel>, int) {
    let ws = spec_windshear_at(s, p);
    if ws.2 is Some {
        st
    } else {
        let st1 = if ws.0 is None { note(st, p, lits(seq!["WS"])) } else { st };
        let rc = run_checked(s, ws.1, f_runway_condition());
        if rc.2 is Some {
            st1
        } else {
            let st2 = note(st1, rc.1, lits(seq!["R"]));
            let tr = spec_trends(s, rc.1);
            if tr.2 is Some {
                st2
            } else {
                let st3 = note(st2, tr.1, lits(trend_names()));
                note(st3, run(s, tr.1, f_vicinity()).1, lits(seq!["CB", "TCU"]))
            }
        }
    }
}

/// What was expected after the remarks at `p`.
pub open spec fn tail_notes(s: Seq<u8>, p: int, st: (Seq<ExpectedModel>, int)) -> (Seq<ExpectedModel>, int) {
    match spec_remarks_at(s, p).0 {
        Some((a, b)) => if text_splits(s, a, b) {
            st
        } else {
            note(st, p, lits(seq!["RMK"]))
        },
        None => note(st, p, lits(seq!["RMK"])),
    }
}

/// What was expected, and where, when decoding `s` stopped: the
/// alternatives tried at the position of a diagnostic.
pub open spec fn spec_notes(s: Seq<u8>) -> (Seq<ExpectedModel>, int) {
    let st0 = (Seq::<ExpectedModel>::empty(), 0int);
    let st1 = header_notes(s, st0);
    match spec_header(s) {
        Err(_) => st1,
        Ok((_, _, _, g1)) => {
            let st2 = front_notes(s, g1, st1);
            match spec_front(s, g1) {
                Err(_) => st2,
                Ok((_, visibility, _, _, g2)) => {
                    let c = spec_cloud_section(s, g2, visibility == Data::Known(Visibility::CAVOK));
                    let st3 = note(st2, c.4, lits(cloud_names()));
                    let st4 = readings_notes(s, c.4, st3);
                    let recent = spec_recent_run(s, spec_readings(s, c.4).4);
                    let st5 = note(st4, recent.1, lits(seq!["RE"]));
                    let st6 = back_notes(s, recent.1, st5);
                    match spec_back(s, recent.1) {
                        Err(_) => st6,
                        Ok((_, _, _, _, g3)) => {
                            let st7 = tail_notes(s, g3, st6);
                            match spec_tail(s, g3) {
                                Err(_) => st7,
                                Ok((_, g4)) => {
                                    let q = spec_finish(s, g4);
                                    if q == s.len() {
                                        st7
                                    } else if q == g4 {
                                        note(st7, q, lits(seq!["="]) + seq![ExpectedModel::EndOfInput])
                                    } else {
                                        note(st7, q, seq![ExpectedModel::EndOfInput])
                                    }
                                },
                            }
                        },
                    }
                },
            }
        },
    }
}

/// `r` is what parsing `data` gives: the report that its text decodes to, or
/// one diagnostic at the position and with the failed check that decoding
/// stopped at, spanning the token there.
pub open spec fn report_result<'a>(r: Result<Metar, Vec<MetarError<'a>>>, data: &'a str) -> bool {
    let s = data.spec_bytes();
    match spec_report(s) {
        Ok(m) => r matches Ok(x) && x@ == m,
        Err((pos, failed)) => r matches Err(es) && es@.len() == 1 && es@[0].string == data
            && es@[0].start == pos && es@[0].end == tok_end(s, pos)
            && es@[0].start <= es@[0].end <= s.len()
            && is_char_boundary(s, es@[0].start as int) && is_char_boundary(s, es@[0].end as int)
            && match failed {
                Some(f) => variant_of(es@[0].variant, f),
                None => es@[0].variant matches ErrorVariant::ExpectedFound { expected, found } && found == found_at(
                    s,
                    pos,
                ) && expected_models(expected@) == spec_notes(s).0,
            },
    }
}

/// The weather, vertical visibility, cloud state and cloud layers at `p` of
/// `s`; see [`spec_cloud_section`].
pub fn decode_cloud_section(s: &[u8], p: usize, cavok: bool) -> (r: (
    Data<Vec<Weather>>,
    Option<VerticalVisibility>,
    Clouds,
    Vec<CloudLayer>,
    usize,
))
    requires
        anchored(s@, p as int),
        p <= s@.len(),
    ensures
        anchored(s@, r.4 as int),
        (match r.0 {
            Data::Known(v) => Data::Known(weather_views(v@)),
            Data::Unknown => Data::Unknown,
        }) == spec_cloud_section(s@, p as int, cavok).0,
        r.1 == spec_cloud_section(s@, p as int, cavok).1,
        r.2 == spec_cloud_section(s@, p as int, cavok).2,
        r.3@ == spec_cloud_section(s@, p as int, cavok).3,
        r.4 == spec_cloud_section(s@, p as int, cavok).4,
        p <= r.4 <= s@.len(),
{
    proof {
        lemma_next_tok_bounds(s@, p as int);
    }
    let e = find_tok_end(s, p);
    let q = find_skip_ws(s, e);
    if is_exactly(s, p, e, &[83, 75, 67]) || is_exactly(s, p, e, &[67, 76, 82]) {
        let none: Vec<Weather> = Vec::new();
        assert(weather_views(none@) =~= Seq::empty());
        return (Data::Known(none), None, Clouds::NoCloudDetected, Vec::new(), q);
    }
    let (weather, g1) = if is_exactly(s, p, e, &[47, 47]) {
        (Data::Unknown, q)
    } else {
        let (v, g1) = decode_weather_run(s, p);
        (Data::Known(v), g1)
    };
    proof {
        lemma_next_tok_bounds(s@, g1 as int);
    }
    let e1 = find_tok_end(s, g1);
    let vv = VerticalVisibility::decode(s, g1, e1);
    let g2 = if vv.is_some() { find_skip_ws(s, e1) } else { g1 };
    proof {
        lemma_next_tok_bounds(s@, g2 as int);
    }
    let e2 = find_tok_end(s, g2);
    let state = Clouds::decode(s, g2, e2);
    let g3 = if state.is_some() { find_skip_ws(s, e2) } else { g2 };
    let (layers, g4) = decode_layer_run(s, g3);
    let clouds = match state {
        Some(c) => c,
        None => if cavok && layers.len() == 0 {
            Clouds::NoCloudDetected
        } else {
            Clouds::CloudLayers
        },
    };
    (weather, vv, clouds, layers, g4)
}

/// The recent-weather groups from `p` on, their conditions in order; see [`spec_recent_run`].
pub fn decode_recent_run(s: &[u8], p: usize) -> (r: (Vec<WeatherCondition>, usize))
    requires
        anchored(s@, p as int),
        p <= s@.len(),
    ensures
        anchored(s@, r.1 as int),
        r.0@ == spec_recent_run(s@, p as int).0,
        r.1 == spec_recent_run(s@, p as int).1,
        p <= r.1 <= s@.len(),
{
    let mut v: Vec<WeatherCondition> = Vec::new();
    let mut q: usize = p;
    loop
        invariant
            p <= q <= s@.len(),
            anchored(s@, q as int),
            spec_recent_run(s@, p as int).0 == v@ + spec_recent_run(s@, q as int).0,
            spec_recent_run(s@, p as int).1 == spec_recent_run(s@, q as int).1,
        ensures
            p <= q <= s@.len(),
            anchored(s@, q as int),
            spec_recent_run(s@, p as int).0 == v@,
            spec_recent_run(s@, p as int).1 == q,
        decreases s@.len() - q,
    {
        proof {
            lemma_next_tok_bounds(s@, q as int);
        }
        let e = find_tok_end(s, q);
        let nq = find_skip_ws(s, e);
        if nq <= q {
            assert(v@ + Seq::empty() =~= v@);
            break;
        }
        match decode_recent(s, q, e) {
            Some(codes) => {
                let ghost before = v@;
                let mut codes = codes;
                let ghost added = codes@;
                v.append(&mut codes);
                assert(v@ + spec_recent_run(s@, nq as int).0 =~= before + (added + spec_recent_run(s@, nq as int).0));
                q = nq;
            },
            None => {
                assert(v@ + Seq::empty() =~= v@);
                break;
            },
        }
    }
    (v, q)
}

/// The first `=` at or after `i`, or the end of the text.
fn find_text_end(s: &[u8], i: usize) -> (e: usize)
    requires
        i <= s@.len(),
    ensures
        e == text_end(s@, i as int),
        i <= e <= s@.len(),
        e < s@.len() ==> s@[e as int] == 61,
{
    let mut k: usize = i;
    while k < s.len() && s[k] != 61
        invariant
            i <= k <= s@.len(),
            text_end(s@, k as int) == text_end(s@, i as int),
        decreases s@.len() - k,
    {
        k = k + 1;
    }
    k
}

fn find_trim_back(s: &[u8], a: usize, b: usize) -> (e: usize)
    requires
        a <= b <= s@.len(),
    ensures
        e == trim_back(s@, a as int, b as int),
        a <= e <= b,
{
    let mut k: usize = b;
    while k > a && is_ws_at(s, k - 1)
        invariant
            a <= k <= b <= s@.len(),
            trim_back(s@, a as int, k as int) == trim_back(s@, a as int, b as int),
        decreases k - a,
    {
        k = k - 1;
    }
    k
}

fn is_ws_at(s: &[u8], i: usize) -> (r: bool)
    requires
        i < s@.len(),
    ensures
        r == is_ws(s@[i as int]),
{
    s[i] == 32 || s[i] == 9
}

/// The text of the bytes `[a, b)` of `data`, when both ends are character boundaries.
fn text_between(data: &str, a: usize, b: usize) -> (r: Option<String>)
    requires
        a <= b <= data.spec_bytes().len(),
    ensures
        text_splits(data.spec_bytes(), a as int, b as int) <==> r is Some,
        r matches Some(t) ==> encode_utf8(t@) == data.spec_bytes().subrange(a as int, b as int),
{
    if !data.is_char_boundary(a) {
        return None;
    }
    let (_, rest) = data.split_at(a);
    if !rest.is_char_boundary(b - a) {
        return None;
    }
    let (piece, _) = rest.split_at(b - a);
    let t = piece.to_owned();
    assert(piece.spec_bytes() =~= data.spec_bytes().subrange(a as int, b as int));
    Some(t)
}

/// Whether the token `[a, b)` of `s` is a station identifier.
fn check_station(s: &[u8], a: usize, b: usize) -> (r: bool)
    requires
        a <= b <= s@.len(),
    ensures
        r == is_station(s@.subrange(a as int, b as int)),
{
    if b - a != 4 {
        return false;
    }
    let mut k: usize = 0;
    while k < 4
        invariant
            k <= 4,
            a + 4 == b <= s@.len(),
            forall|j: int| 0 <= j < k ==> is_upper_or_digit(#[trigger] s@.subrange(a as int, b as int)[j]),
        decreases 4 - k,
    {
        let c = s[a + k];
        if !((65 <= c && c <= 90) || (48 <= c && c <= 57)) {
            assert(!is_upper_or_digit(s@.subrange(a as int, b as int)[k as int]));
            return false;
        }
        k = k + 1;
    }
    true
}

/// Expectations of the literal texts `names`.
pub open spec fn lits(names: Seq<&str>) -> Seq<ExpectedModel> {
    names.map_values(|n: &str| ExpectedModel::Literal(n@))
}

/// What was expected so far, and where: trying `items` at `p` drops what was
/// expected at another position, and unites `items` with what was expected at `p`.
pub open spec fn note(st: (Seq<ExpectedModel>, int), p: int, items: Seq<ExpectedModel>) -> (Seq<ExpectedModel>, int) {
    (merge_models(if st.1 != p { Seq::empty() } else { st.0 }, items), p)
}

/// The expectations named by the literals `names`.
fn literals(names: &[&str]) -> (r: Vec<ExpectedNext>)
    ensures
        expected_models(r@) == lits(names@),
{
    let mut v: Vec<ExpectedNext> = Vec::new();
    let mut i: usize = 0;
    while i < names.len()
        invariant
            i <= names@.len(),
            expected_models(v@) == lits(names@.take(i as int)),
        decreases names@.len() - i,
    {
        let ghost before = v@;
        let e = literal(names[i]);
        assert(e@ == ExpectedModel::Literal(names@[i as int]@));
        v.push(e);
        assert(expected_models(v@) =~= expected_models(before).push(e@));
        assert(lits(names@.take(i + 1)) =~= lits(names@.take(i as int)).push(ExpectedModel::Literal(names@[i as int]@)));
        i = i + 1;
    }
    assert(names@.take(names@.len() as int) =~= names@);
    v
}

/// The expectation of the one literal text `name`.
fn one_literal(name: &str) -> (r: Vec<ExpectedNext>)
    ensures
        expected_models(r@) == lits(seq![name]),
{
    let names: [&str; 1] = [name];
    assert(names@ =~= seq![name]);
    literals(&names)
}

/// Records that the alternatives `items` were tried at `p`; see [`note`].
fn tried(pending: &mut Vec<ExpectedNext>, at: &mut usize, p: usize, items: Vec<ExpectedNext>)
    ensures
        (expected_models(final(pending)@), *final(at) as int) == note(
            (expected_models(old(pending)@), *old(at) as int),
            p as int,
            expected_models(items@),
        ),
{
    if *at != p {
        *pending = Vec::new();
        *at = p;
        assert(expected_models(pending@) =~= Seq::<ExpectedModel>::empty());
    }
    merge_expected(pending, &items);
}

/// The single diagnostic at `pos` of `data`.
fn fail<'a>(data: &'a str, pos: usize, failed: Option<FieldError>, expected: Vec<ExpectedNext>) -> (r: Result<
    Metar,
    Vec<MetarError<'a>>,
>)
    requires
        pos <= data.spec_bytes().len(),
        anchored(data.spec_bytes(), pos as int),
    ensures
        r matches Err(es) && es@.len() == 1 && es@[0].string == data && es@[0].start == pos
            && es@[0].end == tok_end(data.spec_bytes(), pos as int)
            && es@[0].start <= es@[0].end <= data.spec_bytes().len()
            && is_char_boundary(data.spec_bytes(), es@[0].start as int)
            && is_char_boundary(data.spec_bytes(), es@[0].end as int)
            && match failed {
                Some(f) => variant_of(es@[0].variant, f),
                None => es@[0].variant == (ErrorVariant::ExpectedFound {
                    expected,
                    found: found_at(data.spec_bytes(), pos as int),
                }),
            },
{
    let s = data.as_bytes();
    let end = find_tok_end(s, pos);
    proof {
        encode_utf8_valid_utf8(data@);
        lemma_anchored_boundary(s@, pos as int);
        lemma_anchored_boundary(s@, end as int);
    }
    let mut es: Vec<MetarError<'a>> = Vec::new();
    es.push(crate::diag::error_at(data, pos, end, failed, expected));
    Err(es)
}

/// A diagnostic position and the check that failed there, if any.
type Stop = (usize, Option<FieldError>);

/// The station, time and kind; see [`spec_header`].
fn decode_header(s: &[u8], pending: &mut Vec<ExpectedNext>, at: &mut usize) -> (r: Result<(String, Time, Kind, usize), Stop>)
    ensures
        r matches Ok(x) ==> anchored(s@, x.3 as int),
        r matches Err(e) ==> anchored(s@, e.0 as int),
        match spec_header(s@) {
            Ok((station, time, kind, p)) => r matches Ok(x) && x.0@ == ascii_chars(station) && x.1 == time
                && x.2 == kind && x.3 == p,
            Err((pos, f)) => r matches Err(e) && e.0 == pos && e.1 == f && 0 <= pos <= s@.len(),
        },
        r matches Ok(x) ==> x.3 <= s@.len(),
        (expected_models(final(pending)@), *final(at) as int) == header_notes(s@, (expected_models(old(pending)@), *old(at) as int)),
{
    let ghost sb = s@;
    let z = find_skip_ws(s, 0);
    proof {
        lemma_next_tok_bounds(sb, z as int);
    }
    let ze = find_tok_end(s, z);
    let g0 = if is_exactly(s, z, ze, &[77, 69, 84, 65, 82]) { find_skip_ws(s, ze) } else { z };
    assert(g0 == spec_start(sb));
    proof {
        lemma_next_tok_bounds(sb, g0 as int);
    }
    let e0 = find_tok_end(s, g0);
    if !check_station(s, g0, e0) {
        let mut items: Vec<ExpectedNext> = Vec::new();
        items.push(ExpectedNext::SomethingElse);
        assert(expected_models(items@) =~= seq![ExpectedModel::SomethingElse]);
        tried(pending, at, g0, items);
        return Err((g0, None));
    }
    let station = ascii_string(s, g0, e0);
    let g1 = find_skip_ws(s, e0);
    proof {
        lemma_next_tok_bounds(sb, g1 as int);
    }
    let e1 = find_tok_end(s, g1);
    let time = match Time::decode(s, g1, e1) {
        Outcome::NoMatch => {
            let mut items: Vec<ExpectedNext> = Vec::new();
            items.push(ExpectedNext::Digits);
            assert(expected_models(items@) =~= seq![ExpectedModel::Digits]);
            tried(pending, at, g1, items);
            return Err((g1, None));
        },
        Outcome::Invalid(f) => {
            return Err((g1, Some(f)));
        },
        Outcome::Value(t) => t,
    };
    let g2 = find_skip_ws(s, e1);
    proof {
        lemma_next_tok_bounds(sb, g2 as int);
    }
    let e2 = find_tok_end(s, g2);
    if is_exactly(s, g2, e2, &[65, 85, 84, 79]) {
        Ok((station, time, Kind::Automatic, find_skip_ws(s, e2)))
    } else if is_exactly(s, g2, e2, &[67, 79, 82]) {
        Ok((station, time, Kind::Correction, find_skip_ws(s, e2)))
    } else {
        tried(pending, at, g2, literals(&["AUTO", "COR"]));
        Ok((station, time, Kind::Normal, g2))
    }
}

/// Wind, visibility, directional visibilities and runway visual ranges; see [`spec_front`].
fn decode_front(s: &[u8], p: usize, pending: &mut Vec<ExpectedNext>, at: &mut usize) -> (r: Result<(
    Wind,
    Data<Visibility>,
    Vec<(CompassDirection, Data<Visibility>)>,
    Vec<RunwayVisualRange>,
    usize,
), Stop>)
    requires
        anchored(s@, p as int),
        p <= s@.len(),
    ensures
        r matches Ok(x) ==> anchored(s@, x.4 as int),
        r matches Err(e) ==> anchored(s@, e.0 as int),
        match spec_front(s@, p as int) {
            Ok((wind, visibility, dirvis, rvr, q)) => r matches Ok(x) && x.0 == wind && x.1 == visibility
                && x.2@ == dirvis && rvr_views(x.3@) == rvr && x.4 == q && q <= s@.len(),
            Err((pos, f)) => r matches Err(e) && e.0 == pos && e.1 == f && 0 <= pos <= s@.len(),
        },
        (expected_models(final(pending)@), *final(at) as int) == front_notes(s@, p as int, (expected_models(old(pending)@), *old(at) as int)),
{
    let (wo, we) = decode_wind_at(s, p);
    let wind = match wo {
        Outcome::Invalid(f) => {
            return Err((we, Some(f)));
        },
        Outcome::Value(w) => w,
        Outcome::NoMatch => {
            tried(pending, at, p, literals(&["CALM", "VRB", "///"]));
            Wind::Present {
                dir: WindDirection::Heading(Data::Unknown),
                speed: WindSpeed::Knots { speed: Data::Unknown, gusting: None },
                varying: None,
            }
        },
    };
    let (vo, ve) = decode_visibility_at(s, we);
    let visibility = match vo {
        Some(v) => v,
        None => {
            tried(pending, at, we, literals(&["CAVOK", "////"]));
            Data::Unknown
        },
    };
    let (dirvis, pd) = decode_directional_run(s, ve);
    let (rvr, pr, failed) = decode_rvr_run(s, pd);
    match failed {
        Some(f) => Err((pr, Some(f))),
        None => {
            tried(pending, at, pr, one_literal("R"));
            Ok((wind, visibility, dirvis, rvr, pr))
        },
    }
}

/// Temperatures, pressure and colour code; see [`spec_readings`].
fn decode_readings(s: &[u8], p: usize, pending: &mut Vec<ExpectedNext>, at: &mut usize) -> (r: (
    Data<i32>,
    Data<i32>,
    Pressure,
    Option<ColourCode>,
    usize,
))
    requires
        anchored(s@, p as int),
        p <= s@.len(),
    ensures
        anchored(s@, r.4 as int),
        r.0 == spec_readings(s@, p as int).0,
        r.1 == spec_readings(s@, p as int).1,
        r.2 == spec_readings(s@, p as int).2,
        r.3 == spec_readings(s@, p as int).3,
        r.4 == spec_readings(s@, p as int).4,
        p <= r.4 <= s@.len(),
        (expected_models(final(pending)@), *final(at) as int) == readings_notes(s@, p as int, (expected_models(old(pending)@), *old(at) as int)),
{
    proof {
        lemma_next_tok_bounds(s@, p as int);
    }
    let ec = find_tok_end(s, p);
    let tp = decode_temperatures(s, p, ec);
    let g4 = if tp.is_some() { find_skip_ws(s, ec) } else { p };
    if tp.is_none() {
        let mut items: Vec<ExpectedNext> = Vec::new();
        items.push(ExpectedNext::Digits);
        let mut more = literals(&["M", "//"]);
        let ghost m = expected_models(more@);
        items.append(&mut more);
        assert(expected_models(items@) =~= seq![ExpectedModel::Digits] + m);
        tried(pending, at, p, items);
    }
    proof {
        lemma_next_tok_bounds(s@, g4 as int);
    }
    let e4 = find_tok_end(s, g4);
    let pr = Pressure::decode(s, g4, e4);
    let g5 = if pr.is_some() { find_skip_ws(s, e4) } else { g4 };
    if pr.is_none() {
        tried(pending, at, g4, literals(&["Q", "A"]));
    }
    proof {
        lemma_next_tok_bounds(s@, g5 as int);
    }
    let e5 = find_tok_end(s, g5);
    let colour = ColourCode::decode(s, g5, e5);
    let g6 = if colour.is_some() { find_skip_ws(s, e5) } else { g5 };
    if colour.is_none() {
        tried(pending, at, g5, literals(&["BLU", "WHT", "GRN", "YLO", "AMB", "RED"]));
    }
    let (t, d) = match tp {
        Some((t, d)) => (t, d),
        None => (Data::Unknown, Data::Unknown),
    };
    let pressure = match pr {
        Some(x) => x,
        None => Pressure::Hectopascals(Data::Unknown),
    };
    (t, d, pressure, colour, g6)
}

/// Windshear, runway conditions, trends and clouds in the vicinity; see [`spec_back`].
fn decode_back(s: &[u8], p: usize, pending: &mut Vec<ExpectedNext>, at: &mut usize) -> (r: Result<(
    Option<WindshearWarnings>,
    Vec<RunwayCondition>,
    Vec<Trend>,
    Vec<(Vec<CompassDirection>, Data<CloudType>)>,
    usize,
), Stop>)
    requires
        anchored(s@, p as int),
        p <= s@.len(),
    ensures
        r matches Ok(x) ==> anchored(s@, x.4 as int),
        r matches Err(e) ==> anchored(s@, e.0 as int),
        match spec_back(s@, p as int) {
            Ok((ws, rc, tr, vc, q)) => r matches Ok(x) && (match x.0 {
                Some(w) => Some(w@),
                None => None,
            }) == ws && runway_condition_views(x.1@) == rc && trend_views(x.2@) == tr
                && vicinity_views(x.3@) == vc && x.4 == q && q <= s@.len(),
            Err((pos, f)) => r matches Err(e) && e.0 == pos && e.1 == f && 0 <= pos <= s@.len(),
        },
        (expected_models(final(pending)@), *final(at) as int) == back_notes(s@, p as int, (expected_models(old(pending)@), *old(at) as int)),
{
    let (ws, pw, ws_failed) = decode_windshear_at(s, p);
    if ws_failed.is_some() {
        return Err((pw, ws_failed));
    }
    if ws.is_none() {
        tried(pending, at, p, one_literal("WS"));
    }
    let (rc, pc, rc_failed) = decode_runway_condition_run(s, pw);
    if rc_failed.is_some() {
        return Err((pc, rc_failed));
    }
    tried(pending, at, pc, one_literal("R"));
    let (tr, pt, tr_failed) = decode_trends(s, pc);
    if tr_failed.is_some() {
        return Err((pt, tr_failed));
    }
    tried(pending, at, pt, literals(&["NOSIG", "NSW", "BECMG", "TEMPO"]));
    let (vc, pv) = decode_vicinity_run(s, pt);
    tried(pending, at, pv, literals(&["CB", "TCU"]));
    Ok((ws, rc, tr, vc, pv))
}

/// The remarks; see [`spec_tail`].
fn decode_tail(data: &str, p: usize, pending: &mut Vec<ExpectedNext>, at: &mut usize) -> (r: Result<(Option<String>, usize), Stop>)
    requires
        anchored(data.spec_bytes(), p as int),
        p <= data.spec_bytes().len(),
    ensures
        r matches Ok(x) ==> anchored(data.spec_bytes(), x.1 as int),
        r matches Err(e) ==> anchored(data.spec_bytes(), e.0 as int),
        match spec_tail(data.spec_bytes(), p as int) {
            Ok((remarks, q)) => r matches Ok(x) && (match x.0 {
                Some(t) => Some(encode_utf8(t@)),
                None => None,
            }) == remarks && x.1 == q && q <= data.spec_bytes().len(),
            Err((pos, f)) => r matches Err(e) && e.0 == pos && e.1 == f && 0 <= pos <= data.spec_bytes().len(),
        },
        (expected_models(final(pending)@), *final(at) as int) == tail_notes(data.spec_bytes(), p as int, (expected_models(old(pending)@), *old(at) as int)),
{
    let s = data.as_bytes();
    proof {
        lemma_next_tok_bounds(s@, p as int);
    }
    let e = find_tok_end(s, p);
    let rmk: [u8; 3] = [82, 77, 75];
    if is_exactly(s, p, e, &rmk) {
        assert(rmk@.len() == 3);
        assert(s@.subrange(p as int, e as int).len() == 3);
        let a = find_skip_ws(s, p + 3);
        let end = find_text_end(s, a);
        let b = find_trim_back(s, a, end);
        match text_between(data, a, b) {
            Some(t) => Ok((Some(t), end)),
            None => {
                tried(pending, at, p, one_literal("RMK"));
                Err((p, None))
            },
        }
    } else {
        tried(pending, at, p, one_literal("RMK"));
        Ok((None, p))
    }
}

impl Metar {
    /// Parses the text of a METAR into a report, or into the diagnostic that
    /// says which group could not be matched, where, why, and which groups
    /// were tried there.
    #[verifier::rlimit(60)]
    pub fn parse(data: &str) -> (r: Result<Metar, Vec<MetarError<'_>>>)
        ensures
            report_result(r, data),
    {
        let s = data.as_bytes();
        let mut pending: Vec<ExpectedNext> = Vec::new();
        let mut at: usize = 0;
        assert(expected_models(pending@) =~= Seq::<ExpectedModel>::empty());
        let (station, time, kind, g1) = match decode_header(s, &mut pending, &mut at) {
            Ok(x) => x,
            Err((pos, f)) => {
                return fail(data, pos, f, if f.is_none() { pending } else { Vec::new() });
            },
        };
        let (wind, visibility, reduced_directional_visibility, rvr, g2) = match decode_front(s, g1, &mut pending, &mut at) {
            Ok(x) => x,
            Err((pos, f)) => {
                return fail(data, pos, f, Vec::new());
            },
        };
        let cavok = matches!(visibility, Data::Known(Visibility::CAVOK));
        let (weather, vert_visibility, clouds, cloud_layers, pc) = decode_cloud_section(s, g2, cavok);
        tried(&mut pending, &mut at, pc, literals(&["FEW", "SCT", "BKN", "OVC", "NCD", "NSC", "VV"]));
        let (temperature, dewpoint, pressure, colour_code, g3) = decode_readings(s, pc, &mut pending, &mut at);
        let (recent_weather, g4) = decode_recent_run(s, g3);
        tried(&mut pending, &mut at, g4, one_literal("RE"));
        let (windshear_warnings, runway_conditions, trends, clouds_in_vicinity, g5) = match decode_back(
            s,
            g4,
            &mut pending,
            &mut at,
        ) {
            Ok(x) => x,
            Err((pos, f)) => {
                return fail(data, pos, f, Vec::new());
            },
        };
        let (remarks, g6) = match decode_tail(data, g5, &mut pending, &mut at) {
            Ok(x) => x,
            Err((pos, f)) => {
                return fail(data, pos, f, pending);
            },
        };
        let q = if g6 < s.len() && s[g6] == 61 { find_skip_ws(s, g6 + 1) } else { g6 };
        if q != s.len() {
            let mut items: Vec<ExpectedNext> = if q == g6 { one_literal("=") } else { Vec::new() };
            let ghost before = expected_models(items@);
            items.push(ExpectedNext::EndOfInput);
            assert(expected_models(items@) =~= before + seq![ExpectedModel::EndOfInput]);
            tried(&mut pending, &mut at, q, items);
            return fail(data, q, None, pending);
        }
        Ok(Metar {
            station,
            time,
            kind,
            wind,
            visibility,
            reduced_directional_visibility,
            rvr,
            clouds,
            cloud_layers,
            vert_visibility,
            weather,
            temperature,
            dewpoint,
            pressure,
            colour_code,
            recent_weather,
            windshear_warnings,
            runway_conditions,
            trends,
            clouds_in_vicinity,
            remarks,
        })
    }
}

} // verus!
