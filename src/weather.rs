//! Weather phenomena: intensity and the two-letter condition codes.
use vstd::prelude::*;
use vstd::string::StringSliceAdditionalSpecFns;
use crate::diag::{finish, literal};
use crate::error::{ExpectedNext, MetarError};
use crate::lexer::{anchored, find_skip_ws, find_tok_end, lemma_next_tok_bounds};
use crate::outcome::Outcome;
use crate::run::run;

verus! {

/// Descriptor of weather
#[derive(PartialEq, Eq, Copy, Clone, Debug, Hash)]
pub enum WeatherCondition {
    /// Descriptor - Shallow (MI)
    Shallow,
    /// Descriptor - Partial (PR)
    Partial,
    /// Descriptor - Patches (BC)
    Patches,
    /// Descriptor - Low drifting (DR)
    LowDrifting,
    /// Descriptor - Blowing (BL)
    Blowing,
    /// Descriptor - Showers (SH)
    Showers,
    /// Descriptor - Thunderstorm (TS)
    Thunderstorm,
    /// Descriptor - Freezing (FZ)
    Freezing,
    /// Precipitation - Rain (RA)
    Rain,
    /// Precipitation - Drizzle (DZ)
    Drizzle,
    /// Precipitation - Snow (SN)
    Snow,
    /// Precipitation - Snow Grains (SG)
    SnowGrains,
    /// Precipitation - Ice Crystals (IC)
    IceCrystals,
    /// Precipitation - Ice pellets (PL)
    IcePellets,
    /// Precipitation - Hail (including small hail in the US) (GR)
    Hail,
    /// Precipitation - Snow Pellets and/or Small Hail (except in US) (GS)
    SnowPelletsOrSmallHail,
    /// Precipitation - Unknown precipitation (UP)
    UnknownPrecipitation,
    /// Obscuration - Fog (FG)
    Fog,
    /// Obscuration - Volcanic Ash (VA)
    VolcanicAsh,
    /// Obscuration - Mist (BR)
    Mist,
    /// Obscuration - Haze (HZ)
    Haze,
    /// Obscuration - Widespread dust (DU)
    WidespreadDust,
    /// Obscuration - Smoke (FU)
    Smoke,
    /// Obscuration - Sand (SA)
    Sand,
    /// Obscuration - Spray (PY)
    Spray,
    /// Other - Squall (SQ)
    Squall,
    /// Other - Dust or Sand Whirls (PO)
    Dust,
    /// Other - Duststorm (DS)
    Duststorm,
    /// Other - Sandstorm (SS)
    Sandstorm,
    /// Other - Funnel Cloud (FC)
    FunnelCloud,
}

/// Intensity of weather
#[derive(PartialEq, Eq, Copy, Clone, Debug, Hash)]
pub enum WeatherIntensity {
    /// Light (-)
    Light,
    /// Moderate (no prefix)
    Moderate,
    /// Heavy (+)
    Heavy,
    /// In the vicinity (VC)
    InVicinity,
    /// Recent (RE)
    Recent,
}

/// A weather information block
#[derive(PartialEq, Eq, Clone, Debug)]
pub struct Weather {
    /// The intensity of this weather block
    pub intensity: WeatherIntensity,
    /// The weather condition/s this block describes.
    pub conditions: Vec<WeatherCondition>,
}

impl View for Weather {
    type V = (WeatherIntensity, Seq<WeatherCondition>);

    open spec fn view(&self) -> (WeatherIntensity, Seq<WeatherCondition>) {
        (self.intensity, self.conditions@)
    }
}

/// The models of a list of weather groups.
pub open spec fn weather_views(v: Seq<Weather>) -> Seq<(WeatherIntensity, Seq<WeatherCondition>)> {
    v.map_values(|w: Weather| w@)
}

pub open spec fn f_weather() -> spec_fn(Seq<u8>) -> Option<(WeatherIntensity, Seq<WeatherCondition>)> {
    |t: Seq<u8>| spec_weather(t)
}

/// The condition that the two-letter code `c0 c1` names.
pub open spec fn spec_condition(c0: u8, c1: u8) -> Option<WeatherCondition> {
    if c0 == 77 && c1 == 73 {
        Some(WeatherCondition::Shallow)
    } else if c0 == 80 && c1 == 82 {
        Some(WeatherCondition::Partial)
    } else if c0 == 66 && c1 == 67 {
        Some(WeatherCondition::Patches)
    } else if c0 == 68 && c1 == 82 {
        Some(WeatherCondition::LowDrifting)
    } else if c0 == 66 && c1 == 76 {
        Some(WeatherCondition::Blowing)
    } else if c0 == 83 && c1 == 72 {
        Some(WeatherCondition::Showers)
    } else if c0 == 84 && c1 == 83 {
        Some(WeatherCondition::Thunderstorm)
    } else if c0 == 70 && c1 == 90 {
        Some(WeatherCondition::Freezing)
    } else if c0 == 82 && c1 == 65 {
        Some(WeatherCondition::Rain)
    } else if c0 == 68 && c1 == 90 {
        Some(WeatherCondition::Drizzle)
    } else if c0 == 83 && c1 == 78 {
        Some(WeatherCondition::Snow)
    } else if c0 == 83 && c1 == 71 {
        Some(WeatherCondition::SnowGrains)
    } else if c0 == 73 && c1 == 67 {
        Some(WeatherCondition::IceCrystals)
    } else if c0 == 80 && c1 == 76 {
        Some(WeatherCondition::IcePellets)
    } else if c0 == 71 && c1 == 82 {
        Some(WeatherCondition::Hail)
    } else if c0 == 71 && c1 == 83 {
        Some(WeatherCondition::SnowPelletsOrSmallHail)
    } else if c0 == 85 && c1 == 80 {
        Some(WeatherCondition::UnknownPrecipitation)
    } else if c0 == 70 && c1 == 71 {
        Some(WeatherCondition::Fog)
    } else if c0 == 86 && c1 == 65 {
        Some(WeatherCondition::VolcanicAsh)
    } else if c0 == 66 && c1 == 82 {
        Some(WeatherCondition::Mist)
    } else if c0 == 72 && c1 == 90 {
        Some(WeatherCondition::Haze)
    } else if c0 == 68 && c1 == 85 {
        Some(WeatherCondition::WidespreadDust)
    } else if c0 == 70 && c1 == 85 {
        Some(WeatherCondition::Smoke)
    } else if c0 == 83 && c1 == 65 {
        Some(WeatherCondition::Sand)
    } else if c0 == 80 && c1 == 89 {
        Some(WeatherCondition::Spray)
    } else if c0 == 83 && c1 == 81 {
        Some(WeatherCondition::Squall)
    } else if c0 == 80 && c1 == 79 {
        Some(WeatherCondition::Dust)
    } else if c0 == 68 && c1 == 83 {
        Some(WeatherCondition::Duststorm)
    } else if c0 == 83 && c1 == 83 {
        Some(WeatherCondition::Sandstorm)
    } else if c0 == 70 && c1 == 67 {
        Some(WeatherCondition::FunnelCloud)
    } else {
        None
    }
}

/// The condition codes from index `i` to the end of `t`, two letters each.
pub open spec fn spec_codes_from(t: Seq<u8>, i: int) -> Option<Seq<WeatherCondition>>
    decreases t.len() - i,
{
    if i < 0 || i >= t.len() {
        Some(Seq::empty())
    } else if i + 2 > t.len() {
        None
    } else {
        match (spec_condition(t[i], t[i + 1]), spec_codes_from(t, i + 2)) {
            (Some(c), Some(rest)) => Some(seq![c] + rest),
            _ => None,
        }
    }
}

/// How many bytes the intensity prefix of a weather token takes, and what it says.
pub open spec fn spec_intensity(t: Seq<u8>) -> (int, WeatherIntensity) {
    if t.len() >= 1 && t[0] == 45 {
        (1, WeatherIntensity::Light)
    } else if t.len() >= 1 && t[0] == 43 {
        (1, WeatherIntensity::Heavy)
    } else if t.len() >= 2 && t[0] == 86 && t[1] == 67 {
        (2, WeatherIntensity::InVicinity)
    } else if t.len() >= 2 && t[0] == 82 && t[1] == 69 {
        (2, WeatherIntensity::Recent)
    } else {
        (0, WeatherIntensity::Moderate)
    }
}

/// A weather token: an intensity prefix and one or more condition codes.
pub open spec fn spec_weather(t: Seq<u8>) -> Option<(WeatherIntensity, Seq<WeatherCondition>)> {
    match spec_intensity(t) {
        (k, intensity) => if k >= t.len() {
            None
        } else {
            match spec_codes_from(t, k) {
                Some(codes) => Some((intensity, codes)),
                None => None,
            }
        },
    }
}

/// A recent-weather token: `RE` and one or more condition codes.
pub open spec fn spec_recent(t: Seq<u8>) -> Option<Seq<WeatherCondition>> {
    if t.len() > 2 && t[0] == 82 && t[1] == 69 {
        spec_codes_from(t, 2)
    } else {
        None
    }
}

impl WeatherCondition {
    /// The condition that the two-letter code `c0 c1` names.
    pub fn from_code(c0: u8, c1: u8) -> (r: Option<WeatherCondition>)
        ensures
            r == spec_condition(c0, c1),
    {
        if c0 == 77 && c1 == 73 {
            Some(WeatherCondition::Shallow)
        } else if c0 == 80 && c1 == 82 {
            Some(WeatherCondition::Partial)
        } else if c0 == 66 && c1 == 67 {
            Some(WeatherCondition::Patches)
        } else if c0 == 68 && c1 == 82 {
            Some(WeatherCondition::LowDrifting)
        } else if c0 == 66 && c1 == 76 {
            Some(WeatherCondition::Blowing)
        } else if c0 == 83 && c1 == 72 {
            Some(WeatherCondition::Showers)
        } else if c0 == 84 && c1 == 83 {
            Some(WeatherCondition::Thunderstorm)
        } else if c0 == 70 && c1 == 90 {
            Some(WeatherCondition::Freezing)
        } else if c0 == 82 && c1 == 65 {
            Some(WeatherCondition::Rain)
        } else if c0 == 68 && c1 == 90 {
            Some(WeatherCondition::Drizzle)
        } else if c0 == 83 && c1 == 78 {
            Some(WeatherCondition::Snow)
        } else if c0 == 83 && c1 == 71 {
            Some(WeatherCondition::SnowGrains)
        } else if c0 == 73 && c1 == 67 {
            Some(WeatherCondition::IceCrystals)
        } else if c0 == 80 && c1 == 76 {
            Some(WeatherCondition::IcePellets)
        } else if c0 == 71 && c1 == 82 {
            Some(WeatherCondition::Hail)
        } else if c0 == 71 && c1 == 83 {
            Some(WeatherCondition::SnowPelletsOrSmallHail)
        } else if c0 == 85 && c1 == 80 {
            Some(WeatherCondition::UnknownPrecipitation)
        } else if c0 == 70 && c1 == 71 {
            Some(WeatherCondition::Fog)
        } else if c0 == 86 && c1 == 65 {
            Some(WeatherCondition::VolcanicAsh)
        } else if c0 == 66 && c1 == 82 {
            Some(WeatherCondition::Mist)
        } else if c0 == 72 && c1 == 90 {
            Some(WeatherCondition::Haze)
        } else if c0 == 68 && c1 == 85 {
            Some(WeatherCondition::WidespreadDust)
        } else if c0 == 70 && c1 == 85 {
            Some(WeatherCondition::Smoke)
        } else if c0 == 83 && c1 == 65 {
            Some(WeatherCondition::Sand)
        } else if c0 == 80 && c1 == 89 {
            Some(WeatherCondition::Spray)
        } else if c0 == 83 && c1 == 81 {
            Some(WeatherCondition::Squall)
        } else if c0 == 80 && c1 == 79 {
            Some(WeatherCondition::Dust)
        } else if c0 == 68 && c1 == 83 {
            Some(WeatherCondition::Duststorm)
        } else if c0 == 83 && c1 == 83 {
            Some(WeatherCondition::Sandstorm)
        } else if c0 == 70 && c1 == 67 {
            Some(WeatherCondition::FunnelCloud)
        } else {
            None
        }
    }
}

/// The condition codes of the token `[a, b)` of `s` from its index `i` on.
pub fn decode_codes(s: &[u8], a: usize, b: usize, i: usize) -> (r: Option<Vec<WeatherCondition>>)
    requires
        a <= b <= s@.len(),
        i <= b - a,
    ensures
        match spec_codes_from(s@.subrange(a as int, b as int), i as int) {
            Some(codes) => r matches Some(v) && v@ == codes,
            None => r is None,
        },
{
    let ghost t = s@.subrange(a as int, b as int);
    let n = b - a;
    let mut codes: Vec<WeatherCondition> = Vec::new();
    let mut k: usize = i;
    while k < n
        invariant
            i <= k <= n,
            n == b - a,
            b <= s@.len(),
            t == s@.subrange(a as int, b as int),
            spec_codes_from(t, i as int) == match spec_codes_from(t, k as int) {
                Some(rest) => Some(codes@ + rest),
                None => None::<Seq<WeatherCondition>>,
            },
        decreases n - k,
    {
        if n - k < 2 {
            return None;
        }
        match WeatherCondition::from_code(s[a + k], s[a + k + 1]) {
            None => {
                return None;
            },
            Some(c) => {
                let ghost before = codes@;
                codes.push(c);
                proof {
                    match spec_codes_from(t, k + 2) {
                        Some(rest) => {
                            assert(codes@ + rest =~= before + (seq![c] + rest));
                        },
                        None => {},
                    }
                }
                k = k + 2;
            },
        }
    }
    assert(codes@ + Seq::<WeatherCondition>::empty() =~= codes@);
    Some(codes)
}

impl Weather {
    /// Decodes the token `[a, b)` of `s` as a weather group.
    pub fn decode(s: &[u8], a: usize, b: usize) -> (r: Option<Weather>)
        requires
            a <= b <= s@.len(),
        ensures
            match r {
                Some(w) => spec_weather(s@.subrange(a as int, b as int)) == Some(w@),
                None => spec_weather(s@.subrange(a as int, b as int)) is None,
            },
    {
        let ghost t = s@.subrange(a as int, b as int);
        let n = b - a;
        let (k, intensity): (usize, WeatherIntensity) = if n >= 1 && s[a] == 45 {
            (1, WeatherIntensity::Light)
        } else if n >= 1 && s[a] == 43 {
            (1, WeatherIntensity::Heavy)
        } else if n >= 2 && s[a] == 86 && s[a + 1] == 67 {
            (2, WeatherIntensity::InVicinity)
        } else if n >= 2 && s[a] == 82 && s[a + 1] == 69 {
            (2, WeatherIntensity::Recent)
        } else {
            (0, WeatherIntensity::Moderate)
        };
        assert(spec_intensity(t) == (k as int, intensity));
        if k >= n {
            return None;
        }
        match decode_codes(s, a, b, k) {
            Some(conditions) => Some(Weather { intensity, conditions }),
            None => None,
        }
    }

    /// Parses a whole text as a weather group.
    pub fn parse(input: &str) -> (r: Result<Weather, Vec<MetarError<'_>>>)
        ensures
            r matches Ok(w) ==> spec_weather(input.spec_bytes()) == Some(w@),
            r is Err ==> spec_weather(input.spec_bytes()) is None,
            r matches Err(es) ==> es@.len() == 1 && es@[0].start == 0
                && es@[0].end == input.spec_bytes().len(),
    {
        let s = input.as_bytes();
        assert(s@.subrange(0, s@.len() as int) =~= s@);
        let o = match Weather::decode(s, 0, s.len()) {
            Some(w) => Outcome::Value(w),
            None => Outcome::NoMatch,
        };
        let mut expected: Vec<ExpectedNext> = Vec::new();
        expected.push(literal("-"));
        expected.push(literal("+"));
        expected.push(literal("VC"));
        expected.push(literal("RE"));
        finish(input, o, expected)
    }
}

/// Decodes the token `[a, b)` of `s` as a recent-weather group.
pub fn decode_recent(s: &[u8], a: usize, b: usize) -> (r: Option<Vec<WeatherCondition>>)
    requires
        a <= b <= s@.len(),
    ensures
        match spec_recent(s@.subrange(a as int, b as int)) {
            Some(codes) => r matches Some(v) && v@ == codes,
            None => r is None,
        },
{
    if b - a > 2 && s[a] == 82 && s[a + 1] == 69 {
        decode_codes(s, a, b, 2)
    } else {
        None
    }
}


/// The weather groups from `p` on, and where the text after them starts.
pub fn decode_weather_run(s: &[u8], p: usize) -> (r: (Vec<Weather>, usize))
    requires
        anchored(s@, p as int),
        p <= s@.len(),
    ensures
        anchored(s@, r.1 as int),
        weather_views(r.0@) == run(s@, p as int, f_weather()).0,
        r.1 == run(s@, p as int, f_weather()).1,
        p <= r.1 <= s@.len(),
{
    let mut v: Vec<Weather> = Vec::new();
    let mut q: usize = p;
    loop
        invariant
            p <= q <= s@.len(),
            anchored(s@, q as int),
            run(s@, p as int, f_weather()).0 == weather_views(v@) + run(s@, q as int, f_weather()).0,
            run(s@, p as int, f_weather()).1 == run(s@, q as int, f_weather()).1,
        ensures
            p <= q <= s@.len(),
            anchored(s@, q as int),
            run(s@, p as int, f_weather()).0 == weather_views(v@),
            run(s@, p as int, f_weather()).1 == q,
        decreases s@.len() - q,
    {
        proof {
            lemma_next_tok_bounds(s@, q as int);
        }
        let e = find_tok_end(s, q);
        let nq = find_skip_ws(s, e);
        if nq <= q {
            assert(run(s@, q as int, f_weather()) == (Seq::<(WeatherIntensity, Seq<WeatherCondition>)>::empty(), q as int));
            assert(weather_views(v@) + Seq::empty() =~= weather_views(v@));
            break;
        }
        match Weather::decode(s, q, e) {
            Some(x) => {
                let ghost before = v@;
                v.push(x);
                assert(weather_views(v@) =~= weather_views(before).push(weather_views(v@).last()));
                assert(weather_views(v@) + run(s@, nq as int, f_weather()).0 =~= weather_views(before) + (seq![weather_views(v@).last()] + run(s@, nq as int, f_weather()).0));
                q = nq;
            },
            None => {
                assert(run(s@, q as int, f_weather()) == (Seq::<(WeatherIntensity, Seq<WeatherCondition>)>::empty(), q as int));
                assert(weather_views(v@) + Seq::empty() =~= weather_views(v@));
                break;
            },
        }
    }
    (v, q)
}

} // verus!
