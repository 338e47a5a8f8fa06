//! Trend forecasts: no change, no significant weather, or a block of new
//! conditions that will become or temporarily be the case.
use vstd::prelude::*;
use crate::cloud::{spec_cloud_layer, CloudLayer};
use crate::data::Data;
use crate::lexer::{anchored, 
    check_digits, digits_at, find_skip_ws, find_tok_end, is_exactly, lemma_next_tok_bounds, next_tok,
    number_at, read_number, token,
};
use crate::outcome::{FieldError, Outcome};
use crate::run::{run, run_checked};
use crate::visibility::{decode_visibility_at, spec_visibility_at, Visibility};
use crate::weather::{decode_weather_run, f_weather, weather_views, Weather, WeatherCondition, WeatherIntensity};
use crate::wind::{decode_wind_at, spec_wind_at, Wind, WindDirection, WindSpeed};

verus! {

/// How is the weather expected to change in the near future?
#[derive(PartialEq, Eq, Clone, Debug)]
pub enum Trend {
    NoSignificantChanges,
    NoSignificantWeather,
    Becoming(TrendNewCondition),
    Temporarily(TrendNewCondition),
}

/// New conditions apply
#[derive(PartialEq, Eq, Clone, Debug)]
pub struct TrendNewCondition {
    /// The time from which conditions apply
    pub time: Option<TrendTime>,
    /// New wind values, if specified
    pub wind: Option<Wind>,
    /// New visibility values, if specified
    pub visibility: Option<Visibility>,
    /// New weather conditions, if specified
    pub weather: Vec<Weather>,
    /// New cloud layers, if specified
    pub cloud: Vec<CloudLayer>,
}

/// The time at which conditions change
#[derive(PartialEq, Eq, Copy, Clone, Debug, Hash)]
pub enum TrendTime {
    /// From a particular time, in 24 hour format, eg. 1345
    From(u16),
    /// Until a particular time, in 24 hour format, eg. 1345
    Until(u16),
    /// At a particular time, in 24 hour format, eg. 1345
    At(u16),
}

/// The model of [`TrendNewCondition`].
pub struct TrendConditionModel {
    pub time: Option<TrendTime>,
    pub wind: Option<Wind>,
    pub visibility: Option<Visibility>,
    pub weather: Seq<(WeatherIntensity, Seq<WeatherCondition>)>,
    pub cloud: Seq<CloudLayer>,
}

/// The model of [`Trend`].
pub enum TrendModel {
    NoSignificantChanges,
    NoSignificantWeather,
    Becoming(TrendConditionModel),
    Temporarily(TrendConditionModel),
}

impl View for TrendNewCondition {
    type V = TrendConditionModel;

    open spec fn view(&self) -> TrendConditionModel {
        TrendConditionModel {
            time: self.time,
            wind: self.wind,
            visibility: self.visibility,
            weather: weather_views(self.weather@),
            cloud: self.cloud@,
        }
    }
}

impl View for Trend {
    type V = TrendModel;

    open spec fn view(&self) -> TrendModel {
        match self {
            Trend::NoSignificantChanges => TrendModel::NoSignificantChanges,
            Trend::NoSignificantWeather => TrendModel::NoSignificantWeather,
            Trend::Becoming(c) => TrendModel::Becoming(c@),
            Trend::Temporarily(c) => TrendModel::Temporarily(c@),
        }
    }
}

/// `FM`, `TL` or `AT`, then four digits.
pub open spec fn spec_trend_time(t: Seq<u8>) -> Option<TrendTime> {
    if t.len() != 6 || !digits_at(t, 2, 4) {
        None
    } else if t[0] == 70 && t[1] == 77 {
        Some(TrendTime::From(number_at(t, 2, 4) as u16))
    } else if t[0] == 84 && t[1] == 76 {
        Some(TrendTime::Until(number_at(t, 2, 4) as u16))
    } else if t[0] == 65 && t[1] == 84 {
        Some(TrendTime::At(number_at(t, 2, 4) as u16))
    } else {
        None
    }
}

pub open spec fn speed_has_unknown(w: WindSpeed) -> bool {
    match w {
        WindSpeed::Knots { speed, gusting } => speed is Unknown || gusting == Some(Data::<u32>::Unknown),
        WindSpeed::MetresPerSecond { speed, gusting } => speed is Unknown || gusting == Some(Data::<u32>::Unknown),
        WindSpeed::KilometresPerHour { speed, gusting } => speed is Unknown || gusting == Some(Data::<u32>::Unknown),
        WindSpeed::Greater => false,
    }
}

/// Some part of the wind is given as unknown.
pub open spec fn wind_has_unknown(w: Wind) -> bool {
    match w {
        Wind::Calm => false,
        Wind::Present { dir, speed, varying } => dir == WindDirection::Heading(Data::Unknown) || speed_has_unknown(speed)
            || (varying matches Some((a, b)) && (a is Unknown || b is Unknown)),
    }
}

/// Some part of the cloud layer is given as unknown.
pub open spec fn layer_has_unknown(l: CloudLayer) -> bool {
    l.density is Unknown || l.kind is Unknown || l.height is Unknown
}

/// A cloud layer of a trend, which must be fully known.
pub open spec fn spec_trend_layer(t: Seq<u8>) -> Outcome<CloudLayer> {
    match spec_cloud_layer(t) {
        Some(l) => if layer_has_unknown(l) {
            Outcome::Invalid(FieldError::TrendDataCannotBeUnknown)
        } else {
            Outcome::Value(l)
        },
        None => Outcome::NoMatch,
    }
}

pub open spec fn f_trend_layer() -> spec_fn(Seq<u8>) -> Outcome<CloudLayer> {
    |t: Seq<u8>| spec_trend_layer(t)
}

pub open spec fn is_nsw(t: Seq<u8>) -> bool {
    t == seq![78u8, 83u8, 87u8]
}

/// The weather of a trend at `p`: `NSW` (none), or a run of weather groups;
/// and where the text after it starts.
pub open spec fn spec_trend_weather(s: Seq<u8>, p: int) -> (Seq<(WeatherIntensity, Seq<WeatherCondition>)>, int) {
    if is_nsw(token(s, p)) {
        (Seq::empty(), next_tok(s, p))
    } else {
        run(s, p, f_weather())
    }
}

/// The new conditions of a trend at `p`: an optional time, wind, visibility,
/// weather and cloud layers, none of them given as unknown; and where the
/// text after them starts, or where the offending token starts.
pub open spec fn spec_condition_at(s: Seq<u8>, p: int) -> (Outcome<TrendConditionModel>, int) {
    let time = spec_trend_time(token(s, p));
    let g1 = if time is Some { next_tok(s, p) } else { p };
    let w = spec_wind_at(s, g1);
    match w.0 {
        Outcome::Invalid(f) => (Outcome::Invalid(f), w.1),
        Outcome::Value(wv) if wind_has_unknown(wv) => (Outcome::Invalid(FieldError::TrendDataCannotBeUnknown), g1),
        _ => {
            let wind = match w.0 {
                Outcome::Value(wv) => Some(wv),
                _ => None,
            };
            let g2 = if wind is Some { w.1 } else { g1 };
            let v = spec_visibility_at(s, g2);
            match v.0 {
                Some(Data::Unknown) => (Outcome::Invalid(FieldError::TrendDataCannotBeUnknown), g2),
                _ => {
                    let visibility = match v.0 {
                        Some(Data::Known(x)) => Some(x),
                        _ => None,
                    };
                    let g3 = if visibility is Some { v.1 } else { g2 };
                    let wx = spec_trend_weather(s, g3);
                    let layers = run_checked(s, wx.1, f_trend_layer());
                    match layers.2 {
                        Some(f) => (Outcome::Invalid(f), layers.1),
                        None => (
                            Outcome::Value(TrendConditionModel {
                                time,
                                wind,
                                visibility,
                                weather: wx.0,
                                cloud: layers.0,
                            }),
                            layers.1,
                        ),
                    }
                },
            }
        },
    }
}

/// The trend at `p`, and where the text after it starts, or where the
/// offending token starts.
pub open spec fn spec_trend_at(s: Seq<u8>, p: int) -> (Outcome<TrendModel>, int) {
    let t = token(s, p);
    let q = next_tok(s, p);
    if t == seq![78u8, 79u8, 83u8, 73u8, 71u8] {
        (Outcome::Value(TrendModel::NoSignificantChanges), q)
    } else if is_nsw(t) {
        (Outcome::Value(TrendModel::NoSignificantWeather), q)
    } else if t == seq![66u8, 69u8, 67u8, 77u8, 71u8] || t == seq![84u8, 69u8, 77u8, 80u8, 79u8] {
        let c = spec_condition_at(s, q);
        match c.0 {
            Outcome::Value(m) => (
                Outcome::Value(if t[0] == 66 { TrendModel::Becoming(m) } else { TrendModel::Temporarily(m) }),
                c.1,
            ),
            Outcome::Invalid(f) => (Outcome::Invalid(f), c.1),
            Outcome::NoMatch => (Outcome::NoMatch, p),
        }
    } else {
        (Outcome::NoMatch, p)
    }
}

/// The trends from `p` on, where the text after them starts, and the check
/// that failed, if one did (then the position is the offending token's).
pub open spec fn spec_trends(s: Seq<u8>, p: int) -> (Seq<TrendModel>, int, Option<FieldError>)
    decreases s.len() - p,
{
    let t = spec_trend_at(s, p);
    match t.0 {
        Outcome::Value(m) => if 0 <= p < t.1 <= s.len() {
            let rest = spec_trends(s, t.1);
            (seq![m] + rest.0, rest.1, rest.2)
        } else {
            (Seq::empty(), p, None)
        },
        Outcome::Invalid(f) => (Seq::empty(), t.1, Some(f)),
        Outcome::NoMatch => (Seq::empty(), p, None),
    }
}

/// The models of a list of trends.
pub open spec fn trend_views(v: Seq<Trend>) -> Seq<TrendModel> {
    v.map_values(|x: Trend| x@)
}

impl TrendTime {
    /// Decodes the token `[a, b)` of `s` as a trend time.
    pub fn decode(s: &[u8], a: usize, b: usize) -> (r: Option<TrendTime>)
        requires
            a <= b <= s@.len(),
        ensures
            r == spec_trend_time(s@.subrange(a as int, b as int)),
    {
        if b - a != 6 || !check_digits(s, a, b, 2, 4) {
            return None;
        }
        let n = read_number(s, a, b, 2, 4) as u16;
        if s[a] == 70 && s[a + 1] == 77 {
            Some(TrendTime::From(n))
        } else if s[a] == 84 && s[a + 1] == 76 {
            Some(TrendTime::Until(n))
        } else if s[a] == 65 && s[a + 1] == 84 {
            Some(TrendTime::At(n))
        } else {
            None
        }
    }
}

fn has_unknown_speed(w: WindSpeed) -> (r: bool)
    ensures
        r == speed_has_unknown(w),
{
    match w {
        WindSpeed::Knots { speed, gusting } => !speed.is_known() || matches!(gusting, Some(Data::Unknown)),
        WindSpeed::MetresPerSecond { speed, gusting } => !speed.is_known() || matches!(gusting, Some(Data::Unknown)),
        WindSpeed::KilometresPerHour { speed, gusting } => !speed.is_known() || matches!(gusting, Some(Data::Unknown)),
        WindSpeed::Greater => false,
    }
}

fn has_unknown_wind(w: Wind) -> (r: bool)
    ensures
        r == wind_has_unknown(w),
{
    match w {
        Wind::Calm => false,
        Wind::Present { dir, speed, varying } => {
            let d = matches!(dir, WindDirection::Heading(Data::Unknown));
            let v = match varying {
                Some((a, b)) => !a.is_known() || !b.is_known(),
                None => false,
            };
            d || has_unknown_speed(speed) || v
        },
    }
}

fn decode_trend_layer(s: &[u8], a: usize, b: usize) -> (r: Outcome<CloudLayer>)
    requires
        a <= b <= s@.len(),
    ensures
        r == spec_trend_layer(s@.subrange(a as int, b as int)),
{
    match CloudLayer::decode(s, a, b) {
        Some(l) => if !l.density.is_known() || !l.kind.is_known() || !l.height.is_known() {
            Outcome::Invalid(FieldError::TrendDataCannotBeUnknown)
        } else {
            Outcome::Value(l)
        },
        None => Outcome::NoMatch,
    }
}

/// The cloud layers of a trend from `p` on, where the text after them starts, and the check the next token failed, if it did.
pub fn decode_trend_layer_run(s: &[u8], p: usize) -> (r: (Vec<CloudLayer>, usize, Option<FieldError>))
    requires
        anchored(s@, p as int),
        p <= s@.len(),
    ensures
        anchored(s@, r.1 as int),
        r.0@ == run_checked(s@, p as int, f_trend_layer()).0,
        r.1 == run_checked(s@, p as int, f_trend_layer()).1,
        r.2 == run_checked(s@, p as int, f_trend_layer()).2,
        p <= r.1 <= s@.len(),
{
    let mut v: Vec<CloudLayer> = Vec::new();
    let mut q: usize = p;
    loop
        invariant
            p <= q <= s@.len(),
            anchored(s@, q as int),
            run_checked(s@, p as int, f_trend_layer()).0 == v@ + run_checked(s@, q as int, f_trend_layer()).0,
            run_checked(s@, p as int, f_trend_layer()).1 == run_checked(s@, q as int, f_trend_layer()).1,
            run_checked(s@, p as int, f_trend_layer()).2 == run_checked(s@, q as int, f_trend_layer()).2,
        ensures
            p <= q <= s@.len(),
            anchored(s@, q as int),
            run_checked(s@, p as int, f_trend_layer()).0 == v@,
            run_checked(s@, p as int, f_trend_layer()).1 == q,
            run_checked(s@, p as int, f_trend_layer()).2 is None,
        decreases s@.len() - q,
    {
        proof {
            lemma_next_tok_bounds(s@, q as int);
        }
        let e = find_tok_end(s, q);
        let nq = find_skip_ws(s, e);
        if nq <= q {
            assert(run_checked(s@, q as int, f_trend_layer()) == (Seq::<CloudLayer>::empty(), q as int, None::<FieldError>));
            assert(v@ + Seq::empty() =~= v@);
            break;
        }
        match decode_trend_layer(s, q, e) {
            Outcome::Value(x) => {
                let ghost before = v@;
                v.push(x);
                assert(v@ =~= before.push(v@.last()));
                assert(v@ + run_checked(s@, nq as int, f_trend_layer()).0 =~= before + (seq![v@.last()] + run_checked(s@, nq as int, f_trend_layer()).0));
                q = nq;
            },
            Outcome::Invalid(f) => {
                assert(run_checked(s@, q as int, f_trend_layer()) == (Seq::<CloudLayer>::empty(), q as int, Some(f)));
                assert(v@ + Seq::empty() =~= v@);
                return (v, q, Some(f));
            },
            Outcome::NoMatch => {
                assert(run_checked(s@, q as int, f_trend_layer()) == (Seq::<CloudLayer>::empty(), q as int, None::<FieldError>));
                assert(v@ + Seq::empty() =~= v@);
                break;
            },
        }
    }
    (v, q, None)
}

/// The new conditions of a trend at `p` of `s`; see [`spec_condition_at`].
pub fn decode_condition_at(s: &[u8], p: usize) -> (r: (Outcome<TrendNewCondition>, usize))
    requires
        anchored(s@, p as int),
        p <= s@.len(),
    ensures
        anchored(s@, r.1 as int),
        match spec_condition_at(s@, p as int).0 {
            Outcome::Value(m) => r.0 matches Outcome::Value(c) && c@ == m,
            Outcome::Invalid(f) => r.0 == Outcome::<TrendNewCondition>::Invalid(f),
            Outcome::NoMatch => r.0 is NoMatch,
        },
        r.1 == spec_condition_at(s@, p as int).1,
        p <= r.1 <= s@.len(),
{
    proof {
        lemma_next_tok_bounds(s@, p as int);
    }
    let e = find_tok_end(s, p);
    let time = TrendTime::decode(s, p, e);
    let g1 = if time.is_some() { find_skip_ws(s, e) } else { p };
    let (wo, we) = decode_wind_at(s, g1);
    let wind = match wo {
        Outcome::Invalid(f) => {
            return (Outcome::Invalid(f), we);
        },
        Outcome::Value(w) => {
            if has_unknown_wind(w) {
                return (Outcome::Invalid(FieldError::TrendDataCannotBeUnknown), g1);
            }
            Some(w)
        },
        Outcome::NoMatch => None,
    };
    let g2 = if wind.is_some() { we } else { g1 };
    let (vo, ve) = decode_visibility_at(s, g2);
    let visibility = match vo {
        Some(Data::Unknown) => {
            return (Outcome::Invalid(FieldError::TrendDataCannotBeUnknown), g2);
        },
        Some(Data::Known(v)) => Some(v),
        None => None,
    };
    let g3 = if visibility.is_some() { ve } else { g2 };
    proof {
        lemma_next_tok_bounds(s@, g3 as int);
    }
    let e3 = find_tok_end(s, g3);
    let (weather, g4) = if is_exactly(s, g3, e3, &[78, 83, 87]) {
        let none: Vec<Weather> = Vec::new();
        assert(weather_views(none@) =~= Seq::empty());
        (none, find_skip_ws(s, e3))
    } else {
        decode_weather_run(s, g3)
    };
    let (cloud, g5, failed) = decode_trend_layer_run(s, g4);
    match failed {
        Some(f) => (Outcome::Invalid(f), g5),
        None => (Outcome::Value(TrendNewCondition { time, wind, visibility, weather, cloud }), g5),
    }
}

/// The trend at `p` of `s`; see [`spec_trend_at`].
pub fn decode_trend_at(s: &[u8], p: usize) -> (r: (Outcome<Trend>, usize))
    requires
        anchored(s@, p as int),
        p <= s@.len(),
    ensures
        anchored(s@, r.1 as int),
        match spec_trend_at(s@, p as int).0 {
            Outcome::Value(m) => r.0 matches Outcome::Value(c) && c@ == m,
            Outcome::Invalid(f) => r.0 == Outcome::<Trend>::Invalid(f),
            Outcome::NoMatch => r.0 is NoMatch,
        },
        r.1 == spec_trend_at(s@, p as int).1,
        p <= r.1 <= s@.len(),
{
    proof {
        lemma_next_tok_bounds(s@, p as int);
    }
    let e = find_tok_end(s, p);
    let q = find_skip_ws(s, e);
    if is_exactly(s, p, e, &[78, 79, 83, 73, 71]) {
        return (Outcome::Value(Trend::NoSignificantChanges), q);
    }
    if is_exactly(s, p, e, &[78, 83, 87]) {
        return (Outcome::Value(Trend::NoSignificantWeather), q);
    }
    let becoming = is_exactly(s, p, e, &[66, 69, 67, 77, 71]);
    if becoming || is_exactly(s, p, e, &[84, 69, 77, 80, 79]) {
        let (c, ce) = decode_condition_at(s, q);
        match c {
            Outcome::Value(m) => {
                let t = if becoming { Trend::Becoming(m) } else { Trend::Temporarily(m) };
                (Outcome::Value(t), ce)
            },
            Outcome::Invalid(f) => (Outcome::Invalid(f), ce),
            Outcome::NoMatch => (Outcome::NoMatch, p),
        }
    } else {
        (Outcome::NoMatch, p)
    }
}

/// The trends from `p` on; see [`spec_trends`].
pub fn decode_trends(s: &[u8], p: usize) -> (r: (Vec<Trend>, usize, Option<FieldError>))
    requires
        anchored(s@, p as int),
        p <= s@.len(),
    ensures
        anchored(s@, r.1 as int),
        trend_views(r.0@) == spec_trends(s@, p as int).0,
        r.1 == spec_trends(s@, p as int).1,
        r.2 == spec_trends(s@, p as int).2,
        p <= r.1 <= s@.len(),
{
    let mut v: Vec<Trend> = Vec::new();
    let mut q: usize = p;
    loop
        invariant
            p <= q <= s@.len(),
            anchored(s@, q as int),
            spec_trends(s@, p as int).0 == trend_views(v@) + spec_trends(s@, q as int).0,
            spec_trends(s@, p as int).1 == spec_trends(s@, q as int).1,
            spec_trends(s@, p as int).2 == spec_trends(s@, q as int).2,
        ensures
            p <= q <= s@.len(),
            anchored(s@, q as int),
            spec_trends(s@, p as int).0 == trend_views(v@),
            spec_trends(s@, p as int).1 == q,
            spec_trends(s@, p as int).2 is None,
        decreases s@.len() - q,
    {
        let (t, e) = decode_trend_at(s, q);
        match t {
            Outcome::Value(x) => {
                if e <= q {
                    assert(trend_views(v@) + Seq::empty() =~= trend_views(v@));
                    break;
                }
                let ghost before = v@;
                v.push(x);
                assert(trend_views(v@) =~= trend_views(before).push(trend_views(v@).last()));
                assert(trend_views(v@) + spec_trends(s@, e as int).0 =~= trend_views(before) + (seq![trend_views(v@).last()] + spec_trends(s@, e as int).0));
                q = e;
            },
            Outcome::Invalid(f) => {
                assert(trend_views(v@) + Seq::empty() =~= trend_views(v@));
                return (v, e, Some(f));
            },
            Outcome::NoMatch => {
                assert(trend_views(v@) + Seq::empty() =~= trend_views(v@));
                break;
            },
        }
    }
    (v, q, None)
}

} // verus!
