//! Cloud layers, cloud-cover states, vertical visibility and clouds in the vicinity.
use vstd::prelude::*;
use vstd::string::StringSliceAdditionalSpecFns;
use crate::data::Data;
use crate::diag::{finish, literal, whole_result};
use crate::error::{ExpectedNext, MetarError};
use crate::lexer::{anchored, find_segment_end, segment_end, check_digits, digits_at, is_exactly, number_at, read_number, slashes_at, check_slashes};
use crate::lexer::{find_skip_ws, find_tok_end, lemma_next_tok_bounds};
use crate::outcome::Outcome;
use crate::run::run;
use crate::visibility::{spec_compass, CompassDirection};

verus! {

/// The density of the cloud cover
#[derive(PartialEq, Eq, Copy, Clone, Debug, Hash)]
pub enum CloudDensity {
    /// Few clouds (1/8)
    Few,
    /// Scattered cloud cover (3/8)
    Scattered,
    /// Broken cloud cover (5/8)
    Broken,
    /// Overcast cloud cover (7/8)
    Overcast,
}

/// A cloud type description
#[derive(PartialEq, Eq, Copy, Clone, Debug, Hash)]
pub enum CloudType {
    /// A normal cloud
    Normal,
    /// A cumulonimbus cloud
    Cumulonimbus,
    /// A towering cumulus cloud
    ToweringCumulus,
}

/// One layer of cloud
#[derive(PartialEq, Eq, Copy, Clone, Debug, Hash)]
pub struct CloudLayer {
    /// Cloud density
    pub density: Data<CloudDensity>,
    /// Cloud type
    pub kind: Data<CloudType>,
    /// Cloud height in hundreds of feet
    pub height: Data<u32>,
}

/// Cloud state
#[derive(PartialEq, Eq, Copy, Clone, Debug, Hash)]
pub enum Clouds {
    /// No cloud was detected, also set for CAVOK
    NoCloudDetected,
    /// No significant cloud was detected below 5000ft
    NoSignificantCloud,
    /// Layers of cloud, described elsewhere
    CloudLayers,
}

/// Vertical visibility measurement
#[derive(PartialEq, Eq, Copy, Clone, Debug, Hash)]
pub enum VerticalVisibility {
    /// A distance of vertical visibility, in hundreds of feet
    Distance(u32),
    /// The vertical visibility is reduced by an amount that hasn't or cannot be measured
    ReducedByUnknownAmount,
}

pub open spec fn f_layer() -> spec_fn(Seq<u8>) -> Option<CloudLayer> {
    |t: Seq<u8>| spec_cloud_layer(t)
}

pub open spec fn f_vicinity() -> spec_fn(Seq<u8>) -> Option<(Seq<CompassDirection>, Data<CloudType>)> {
    |t: Seq<u8>| spec_vicinity(t)
}

/// The model of one clouds-in-vicinity entry.
pub open spec fn vicinity_view(x: (Vec<CompassDirection>, Data<CloudType>)) -> (Seq<CompassDirection>, Data<CloudType>) {
    (x.0@, x.1)
}

/// The models of a list of clouds-in-vicinity entries.
pub open spec fn vicinity_views(v: Seq<(Vec<CompassDirection>, Data<CloudType>)>) -> Seq<(Seq<CompassDirection>, Data<CloudType>)> {
    v.map_values(|x: (Vec<CompassDirection>, Data<CloudType>)| vicinity_view(x))
}

pub open spec fn spec_density(d: Seq<u8>) -> Option<CloudDensity> {
    if d == seq![70u8, 69u8, 87u8] {
        Some(CloudDensity::Few)
    } else if d == seq![83u8, 67u8, 84u8] {
        Some(CloudDensity::Scattered)
    } else if d == seq![66u8, 75u8, 78u8] {
        Some(CloudDensity::Broken)
    } else if d == seq![79u8, 86u8, 67u8] {
        Some(CloudDensity::Overcast)
    } else {
        None
    }
}

/// A cloud type suffix: nothing, `CB` or `TCU`.
pub open spec fn spec_cloud_type(k: Seq<u8>) -> Option<CloudType> {
    if k.len() == 0 {
        Some(CloudType::Normal)
    } else if k == seq![67u8, 66u8] {
        Some(CloudType::Cumulonimbus)
    } else if k == seq![84u8, 67u8, 85u8] {
        Some(CloudType::ToweringCumulus)
    } else {
        None
    }
}

/// Three slashes, or what `known` decodes.
pub open spec fn unknown_or<T>(part: Seq<u8>, known: Option<T>) -> Option<Data<T>> {
    if part == seq![47u8, 47u8, 47u8] {
        Some(Data::Unknown)
    } else {
        match known {
            Some(v) => Some(Data::Known(v)),
            None => None,
        }
    }
}

pub open spec fn spec_height(h: Seq<u8>) -> Option<u32> {
    if h.len() == 3 && digits_at(h, 0, 3) {
        Some(number_at(h, 0, 3) as u32)
    } else {
        None
    }
}

/// What a cloud layer token (density, height, type; each possibly slashes) decodes to.
pub open spec fn spec_cloud_layer(t: Seq<u8>) -> Option<CloudLayer> {
    if t.len() < 6 {
        None
    } else {
        match (
            unknown_or(t.subrange(0, 3), spec_density(t.subrange(0, 3))),
            unknown_or(t.subrange(3, 6), spec_height(t.subrange(3, 6))),
            unknown_or(t.subrange(6, t.len() as int), spec_cloud_type(t.subrange(6, t.len() as int))),
        ) {
            (Some(density), Some(height), Some(kind)) => Some(CloudLayer { density, kind, height }),
            _ => None,
        }
    }
}

/// `NCD`, `NSC` or `CLR`.
pub open spec fn spec_clouds(t: Seq<u8>) -> Option<Clouds> {
    if t == seq![78u8, 67u8, 68u8] || t == seq![67u8, 76u8, 82u8] {
        Some(Clouds::NoCloudDetected)
    } else if t == seq![78u8, 83u8, 67u8] {
        Some(Clouds::NoSignificantCloud)
    } else {
        None
    }
}

/// `VV///` or `VV` and three digits.
pub open spec fn spec_vertical(t: Seq<u8>) -> Option<VerticalVisibility> {
    if t.len() != 5 || t[0] != 86 || t[1] != 86 {
        None
    } else if slashes_at(t, 2, 3) {
        Some(VerticalVisibility::ReducedByUnknownAmount)
    } else if digits_at(t, 2, 3) {
        Some(VerticalVisibility::Distance(number_at(t, 2, 3) as u32))
    } else {
        None
    }
}

/// The compass directions of `/dir/dir...` from index `i` to the end of `t`.
pub open spec fn spec_directions_from(t: Seq<u8>, i: int) -> Option<Seq<CompassDirection>>
    decreases t.len() - i,
{
    let e = segment_end(t, i + 1);
    if i < 0 || i >= t.len() {
        Some(Seq::empty())
    } else if t[i] != 47 || e <= i || e > t.len() {
        None
    } else {
        match (spec_compass(t.subrange(i + 1, e)), spec_directions_from(t, e)) {
            (Some(d), Some(rest)) => Some(seq![d] + rest),
            _ => None,
        }
    }
}

/// How many bytes the cloud type part of a clouds-in-vicinity token takes,
/// and what it says.
pub open spec fn vicinity_type(t: Seq<u8>) -> (int, Data<CloudType>) {
    if slashes_at(t, 0, 3) {
        (3, Data::Unknown)
    } else if t.len() >= 3 && t.subrange(0, 3) == seq![84u8, 67u8, 85u8] {
        (3, Data::Known(CloudType::ToweringCumulus))
    } else if t.len() >= 2 && t.subrange(0, 2) == seq![67u8, 66u8] {
        (2, Data::Known(CloudType::Cumulonimbus))
    } else {
        (0, Data::Known(CloudType::Normal))
    }
}

/// A clouds-in-vicinity token: a cloud type and one or more `/direction`.
pub open spec fn spec_vicinity(t: Seq<u8>) -> Option<(Seq<CompassDirection>, Data<CloudType>)> {
    match vicinity_type(t) {
        (k, kind) => if k >= t.len() {
            None
        } else {
            match spec_directions_from(t, k) {
                Some(dirs) => Some((dirs, kind)),
                None => None,
            }
        },
    }
}

fn decode_density(s: &[u8], a: usize, b: usize) -> (r: Option<CloudDensity>)
    requires
        a <= b <= s@.len(),
    ensures
        r == spec_density(s@.subrange(a as int, b as int)),
{
    if is_exactly(s, a, b, &[70, 69, 87]) {
        Some(CloudDensity::Few)
    } else if is_exactly(s, a, b, &[83, 67, 84]) {
        Some(CloudDensity::Scattered)
    } else if is_exactly(s, a, b, &[66, 75, 78]) {
        Some(CloudDensity::Broken)
    } else if is_exactly(s, a, b, &[79, 86, 67]) {
        Some(CloudDensity::Overcast)
    } else {
        None
    }
}

fn decode_cloud_type(s: &[u8], a: usize, b: usize) -> (r: Option<CloudType>)
    requires
        a <= b <= s@.len(),
    ensures
        r == spec_cloud_type(s@.subrange(a as int, b as int)),
{
    if a == b {
        Some(CloudType::Normal)
    } else if is_exactly(s, a, b, &[67, 66]) {
        Some(CloudType::Cumulonimbus)
    } else if is_exactly(s, a, b, &[84, 67, 85]) {
        Some(CloudType::ToweringCumulus)
    } else {
        None
    }
}

fn decode_height(s: &[u8], a: usize, b: usize) -> (r: Option<u32>)
    requires
        a <= b <= s@.len(),
    ensures
        r == spec_height(s@.subrange(a as int, b as int)),
{
    if b - a == 3 && check_digits(s, a, b, 0, 3) {
        Some(read_number(s, a, b, 0, 3))
    } else {
        None
    }
}

fn unknown_or_density(s: &[u8], a: usize, b: usize) -> (r: Option<Data<CloudDensity>>)
    requires
        a <= b <= s@.len(),
    ensures
        r == unknown_or(s@.subrange(a as int, b as int), spec_density(s@.subrange(a as int, b as int))),
{
    if is_exactly(s, a, b, &[47, 47, 47]) {
        return Some(Data::Unknown);
    }
    match decode_density(s, a, b) {
        Some(v) => Some(Data::Known(v)),
        None => None,
    }
}

fn unknown_or_height(s: &[u8], a: usize, b: usize) -> (r: Option<Data<u32>>)
    requires
        a <= b <= s@.len(),
    ensures
        r == unknown_or(s@.subrange(a as int, b as int), spec_height(s@.subrange(a as int, b as int))),
{
    if is_exactly(s, a, b, &[47, 47, 47]) {
        return Some(Data::Unknown);
    }
    match decode_height(s, a, b) {
        Some(v) => Some(Data::Known(v)),
        None => None,
    }
}

fn unknown_or_type(s: &[u8], a: usize, b: usize) -> (r: Option<Data<CloudType>>)
    requires
        a <= b <= s@.len(),
    ensures
        r == unknown_or(s@.subrange(a as int, b as int), spec_cloud_type(s@.subrange(a as int, b as int))),
{
    if is_exactly(s, a, b, &[47, 47, 47]) {
        return Some(Data::Unknown);
    }
    match decode_cloud_type(s, a, b) {
        Some(v) => Some(Data::Known(v)),
        None => None,
    }
}

impl CloudLayer {
    /// Decodes the token `[a, b)` of `s` as a cloud layer.
    pub fn decode(s: &[u8], a: usize, b: usize) -> (r: Option<CloudLayer>)
        requires
            a <= b <= s@.len(),
        ensures
            r == spec_cloud_layer(s@.subrange(a as int, b as int)),
    {
        let ghost t = s@.subrange(a as int, b as int);
        if b - a < 6 {
            return None;
        }
        assert(s@.subrange(a as int, a + 3) =~= t.subrange(0, 3));
        assert(s@.subrange(a + 3, a + 6) =~= t.subrange(3, 6));
        assert(s@.subrange(a + 6, b as int) =~= t.subrange(6, t.len() as int));
        match (unknown_or_density(s, a, a + 3), unknown_or_height(s, a + 3, a + 6), unknown_or_type(s, a + 6, b)) {
            (Some(density), Some(height), Some(kind)) => Some(CloudLayer { density, kind, height }),
            _ => None,
        }
    }

    /// Parses a whole text as a cloud layer.
    pub fn parse(input: &str) -> (r: Result<CloudLayer, Vec<MetarError<'_>>>)
        ensures
            whole_result(
                r,
                match spec_cloud_layer(input.spec_bytes()) {
                    Some(v) => Outcome::Value(v),
                    None => Outcome::NoMatch,
                },
                input,
            ),
    {
        let s = input.as_bytes();
        assert(s@.subrange(0, s@.len() as int) =~= s@);
        let o = match CloudLayer::decode(s, 0, s.len()) {
            Some(v) => Outcome::Value(v),
            None => Outcome::NoMatch,
        };
        let mut expected: Vec<ExpectedNext> = Vec::new();
        expected.push(literal("FEW"));
        expected.push(literal("SCT"));
        expected.push(literal("BKN"));
        expected.push(literal("OVC"));
        expected.push(literal("///"));
        finish(input, o, expected)
    }
}

impl Clouds {
    /// Decodes the token `[a, b)` of `s` as a cloud-cover keyword.
    pub fn decode(s: &[u8], a: usize, b: usize) -> (r: Option<Clouds>)
        requires
            a <= b <= s@.len(),
        ensures
            r == spec_clouds(s@.subrange(a as int, b as int)),
    {
        if is_exactly(s, a, b, &[78, 67, 68]) || is_exactly(s, a, b, &[67, 76, 82]) {
            Some(Clouds::NoCloudDetected)
        } else if is_exactly(s, a, b, &[78, 83, 67]) {
            Some(Clouds::NoSignificantCloud)
        } else {
            None
        }
    }
}

impl VerticalVisibility {
    /// Decodes the token `[a, b)` of `s` as a vertical visibility.
    pub fn decode(s: &[u8], a: usize, b: usize) -> (r: Option<VerticalVisibility>)
        requires
            a <= b <= s@.len(),
        ensures
            r == spec_vertical(s@.subrange(a as int, b as int)),
    {
        if b - a != 5 || s[a] != 86 || s[a + 1] != 86 {
            None
        } else if check_slashes(s, a, b, 2, 3) {
            Some(VerticalVisibility::ReducedByUnknownAmount)
        } else if check_digits(s, a, b, 2, 3) {
            Some(VerticalVisibility::Distance(read_number(s, a, b, 2, 3)))
        } else {
            None
        }
    }

    /// Parses a whole text as a vertical visibility.
    pub fn parse(input: &str) -> (r: Result<VerticalVisibility, Vec<MetarError<'_>>>)
        ensures
            whole_result(
                r,
                match spec_vertical(input.spec_bytes()) {
                    Some(v) => Outcome::Value(v),
                    None => Outcome::NoMatch,
                },
                input,
            ),
    {
        let s = input.as_bytes();
        assert(s@.subrange(0, s@.len() as int) =~= s@);
        let o = match VerticalVisibility::decode(s, 0, s.len()) {
            Some(v) => Outcome::Value(v),
            None => Outcome::NoMatch,
        };
        let mut expected: Vec<ExpectedNext> = Vec::new();
        expected.push(literal("VV"));
        finish(input, o, expected)
    }
}

/// Decodes the token `[a, b)` of `s` as clouds in the vicinity.
pub fn decode_vicinity(s: &[u8], a: usize, b: usize) -> (r: Option<(Vec<CompassDirection>, Data<CloudType>)>)
    requires
        a <= b <= s@.len(),
    ensures
        match spec_vicinity(s@.subrange(a as int, b as int)) {
            Some((dirs, kind)) => r matches Some(v) && v.0@ == dirs && v.1 == kind,
            None => r is None,
        },
{
    let ghost t = s@.subrange(a as int, b as int);
    let n = b - a;
    let (k, kind): (usize, Data<CloudType>) = if check_slashes(s, a, b, 0, 3) {
        (3, Data::Unknown)
    } else if n >= 3 && s[a] == 84 && s[a + 1] == 67 && s[a + 2] == 85 {
        assert(t.subrange(0, 3) =~= seq![84u8, 67u8, 85u8]);
        (3, Data::Known(CloudType::ToweringCumulus))
    } else if n >= 2 && s[a] == 67 && s[a + 1] == 66 {
        assert(n < 3 || t.subrange(0, 3) != seq![84u8, 67u8, 85u8]) by {
            if n >= 3 && t.subrange(0, 3) == seq![84u8, 67u8, 85u8] {
                assert(t.subrange(0, 3)[0] == 84u8);
            }
        }
        assert(t.subrange(0, 2) =~= seq![67u8, 66u8]);
        (2, Data::Known(CloudType::Cumulonimbus))
    } else {
        assert(n < 3 || t.subrange(0, 3) != seq![84u8, 67u8, 85u8]) by {
            if n >= 3 && t.subrange(0, 3) == seq![84u8, 67u8, 85u8] {
                assert(t.subrange(0, 3)[0] == 84u8);
                assert(t.subrange(0, 3)[1] == 67u8);
                assert(t.subrange(0, 3)[2] == 85u8);
            }
        }
        assert(n < 2 || t.subrange(0, 2) != seq![67u8, 66u8]) by {
            if n >= 2 && t.subrange(0, 2) == seq![67u8, 66u8] {
                assert(t.subrange(0, 2)[0] == 67u8);
                assert(t.subrange(0, 2)[1] == 66u8);
            }
        }
        (0, Data::Known(CloudType::Normal))
    };
    assert(vicinity_type(t) == (k as int, kind));
    if k >= n {
        return None;
    }
    let mut dirs: Vec<CompassDirection> = Vec::new();
    let mut i: usize = k;
    while i < n
        invariant
            k <= i <= n,
            n == b - a,
            b <= s@.len(),
            t == s@.subrange(a as int, b as int),
            vicinity_type(t) == (k as int, kind),
            spec_directions_from(t, k as int) == match spec_directions_from(t, i as int) {
                Some(rest) => Some(dirs@ + rest),
                None => None::<Seq<CompassDirection>>,
            },
        decreases n - i,
    {
        if s[a + i] != 47 {
            assert(spec_directions_from(t, i as int) is None);
            return None;
        }
        let e = find_segment_end(s, a, b, i + 1);
        assert(s@.subrange(a + i + 1, a + e) =~= t.subrange(i + 1, e as int));
        match CompassDirection::decode(s, a + i + 1, a + e) {
            None => {
                assert(spec_directions_from(t, i as int) is None);
                return None;
            },
            Some(d) => {
                let ghost old_dirs = dirs@;
                dirs.push(d);
                proof {
                    match spec_directions_from(t, e as int) {
                        Some(rest) => {
                            assert(dirs@ + rest =~= old_dirs + (seq![d] + rest));
                        },
                        None => {},
                    }
                }
                i = e;
            },
        }
    }
    assert(spec_directions_from(t, i as int) == Some(Seq::<CompassDirection>::empty()));
    assert(dirs@ + Seq::<CompassDirection>::empty() =~= dirs@);
    Some((dirs, kind))
}


/// The cloud layers from `p` on, and where the text after them starts.
pub fn decode_layer_run(s: &[u8], p: usize) -> (r: (Vec<CloudLayer>, usize))
    requires
        anchored(s@, p as int),
        p <= s@.len(),
    ensures
        anchored(s@, r.1 as int),
        r.0@ == run(s@, p as int, f_layer()).0,
        r.1 == run(s@, p as int, f_layer()).1,
        p <= r.1 <= s@.len(),
{
    let mut v: Vec<CloudLayer> = Vec::new();
    let mut q: usize = p;
    loop
        invariant
            p <= q <= s@.len(),
            anchored(s@, q as int),
            run(s@, p as int, f_layer()).0 == v@ + run(s@, q as int, f_layer()).0,
            run(s@, p as int, f_layer()).1 == run(s@, q as int, f_layer()).1,
        ensures
            p <= q <= s@.len(),
            anchored(s@, q as int),
            run(s@, p as int, f_layer()).0 == v@,
            run(s@, p as int, f_layer()).1 == q,
        decreases s@.len() - q,
    {
        proof {
            lemma_next_tok_bounds(s@, q as int);
        }
        let e = find_tok_end(s, q);
        let nq = find_skip_ws(s, e);
        if nq <= q {
            assert(run(s@, q as int, f_layer()) == (Seq::<CloudLayer>::empty(), q as int));
            assert(v@ + Seq::empty() =~= v@);
            break;
        }
        match CloudLayer::decode(s, q, e) {
            Some(x) => {
                let ghost before = v@;
                v.push(x);
                assert(v@ =~= before.push(v@.last()));
                assert(v@ + run(s@, nq as int, f_layer()).0 =~= before + (seq![v@.last()] + run(s@, nq as int, f_layer()).0));
                q = nq;
            },
            None => {
                assert(run(s@, q as int, f_layer()) == (Seq::<CloudLayer>::empty(), q as int));
                assert(v@ + Seq::empty() =~= v@);
                break;
            },
        }
    }
    (v, q)
}

/// The clouds-in-vicinity entries from `p` on, and where the text after them starts.
pub fn decode_vicinity_run(s: &[u8], p: usize) -> (r: (Vec<(Vec<CompassDirection>, Data<CloudType>)>, usize))
    requires
        anchored(s@, p as int),
        p <= s@.len(),
    ensures
        anchored(s@, r.1 as int),
        vicinity_views(r.0@) == run(s@, p as int, f_vicinity()).0,
        r.1 == run(s@, p as int, f_vicinity()).1,
        p <= r.1 <= s@.len(),
{
    let mut v: Vec<(Vec<CompassDirection>, Data<CloudType>)> = Vec::new();
    let mut q: usize = p;
    loop
        invariant
            p <= q <= s@.len(),
            anchored(s@, q as int),
            run(s@, p as int, f_vicinity()).0 == vicinity_views(v@) + run(s@, q as int, f_vicinity()).0,
            run(s@, p as int, f_vicinity()).1 == run(s@, q as int, f_vicinity()).1,
        ensures
            p <= q <= s@.len(),
            anchored(s@, q as int),
            run(s@, p as int, f_vicinity()).0 == vicinity_views(v@),
            run(s@, p as int, f_vicinity()).1 == q,
        decreases s@.len() - q,
    {
        proof {
            lemma_next_tok_bounds(s@, q as int);
        }
        let e = find_tok_end(s, q);
        let nq = find_skip_ws(s, e);
        if nq <= q {
            assert(run(s@, q as int, f_vicinity()) == (Seq::<(Seq<CompassDirection>, Data<CloudType>)>::empty(), q as int));
            assert(vicinity_views(v@) + Seq::empty() =~= vicinity_views(v@));
            break;
        }
        match decode_vicinity(s, q, e) {
            Some(x) => {
                let ghost before = v@;
                v.push(x);
                assert(vicinity_views(v@) =~= vicinity_views(before).push(vicinity_views(v@).last()));
                assert(vicinity_views(v@) + run(s@, nq as int, f_vicinity()).0 =~= vicinity_views(before) + (seq![vicinity_views(v@).last()] + run(s@, nq as int, f_vicinity()).0));
                q = nq;
            },
            None => {
                assert(run(s@, q as int, f_vicinity()) == (Seq::<(Seq<CompassDirection>, Data<CloudType>)>::empty(), q as int));
                assert(vicinity_views(v@) + Seq::empty() =~= vicinity_views(v@));
                break;
            },
        }
    }
    (v, q)
}

} // verus!
