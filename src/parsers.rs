//! Checks on single report tokens that say which character is wrong.
//!
//! Each returns the decoded value, or the byte offset and length of the
//! offending part of the token together with what is wrong with it.
use vstd::prelude::*;
use vstd::string::StringSliceAdditionalSpecFns;
use crate::data::Data;
use crate::lexer::{digits_at, is_digit, is_digit_byte, number_at, read_number, slashes_at, check_slashes};
use crate::pressure::Pressure;
use crate::time::Time;

verus! {

/// An error caused whilst parsing the weather station
#[derive(Copy, Clone, Debug, PartialEq, Eq, Hash)]
pub enum StationError {
    /// The station ID is not the correct length
    IncorrectLength,
    /// A character was found to be not alphanumeric
    NonAlphanumericCharacter,
}

/// An error caused when parsing the observation time
#[derive(Copy, Clone, Debug, PartialEq, Eq, Hash)]
pub enum ObservationTimeError {
    /// The observation time is not the correct length
    IncorrectLength,
    /// The observation date is not valid
    DateNotValid,
    /// The observation hour is not valid
    HourNotValid,
    /// The observation minute is not valid
    MinuteNotValid,
    /// The specified time zone is not within the ICAO METAR standard
    InvalidTimeZone,
}

/// An error caused when parsing the wind
#[derive(Copy, Clone, Debug, PartialEq, Eq, Hash)]
pub enum WindError {
    /// The wind information is not the correct length
    IncorrectLength,
    /// The wind heading is not valid
    HeadingNotValid,
    /// The wind speed was not valid
    SpeedNotValid,
    /// The wind gusting speed was not valid
    GustingNotValid,
    /// An unknown unit was read
    UnitNotValid,
}

/// An error caused when parsing the wind varying
#[derive(Copy, Clone, Debug, PartialEq, Eq, Hash)]
pub enum WindVaryingError {
    /// The wind heading is not valid
    HeadingNotValid,
    /// The text is not a varying wind group at all
    NotWindVarying,
}

/// An error caused when parsing the cloud and visibility information
#[derive(Copy, Clone, Debug, PartialEq, Eq, Hash)]
pub enum CloudVisibilityError {
    /// The data parsing was attempted upon is unknown in type
    UnknownData,
}

/// An error caused when parsing the temperature
#[derive(Copy, Clone, Debug, PartialEq, Eq, Hash)]
pub enum TemperatureError {
    /// The temperature is not valid
    TemperatureNotValid,
    /// The dewpoint is not valid
    DewpointNotValid,
    /// The text is not a temperature/dewpoint pair at all
    NotTemperatureDewpointPair,
}

/// An error caused when parsing the pressure
#[derive(Copy, Clone, Debug, PartialEq, Eq, Hash)]
pub enum PressureError {
    /// The pressure is not valid
    PressureNotValid,
    /// The unit is not valid, or missing
    UnitNotValid,
}

impl StationError {
    /// A sentence that describes the error.
    pub fn message(&self) -> (r: &'static str)
        ensures
            r@ == match *self {
                StationError::IncorrectLength => "The station ID was not the correct length."@,
                StationError::NonAlphanumericCharacter => "Found a non-alphanumeric character."@,
            },
    {
        match self {
            StationError::IncorrectLength => "The station ID was not the correct length.",
            StationError::NonAlphanumericCharacter => "Found a non-alphanumeric character.",
        }
    }
}

impl ObservationTimeError {
    /// A sentence that describes the error.
    pub fn message(&self) -> (r: &'static str)
        ensures
            r@ == match *self {
                ObservationTimeError::IncorrectLength => "The observation time was not the correct length."@,
                ObservationTimeError::DateNotValid => "The date was invalid."@,
                ObservationTimeError::HourNotValid => "The hour was invalid."@,
                ObservationTimeError::MinuteNotValid => "The minute was invalid."@,
                ObservationTimeError::InvalidTimeZone => "The time zone was invalid (not Zulu)."@,
            },
    {
        match self {
            ObservationTimeError::IncorrectLength => "The observation time was not the correct length.",
            ObservationTimeError::DateNotValid => "The date was invalid.",
            ObservationTimeError::HourNotValid => "The hour was invalid.",
            ObservationTimeError::MinuteNotValid => "The minute was invalid.",
            ObservationTimeError::InvalidTimeZone => "The time zone was invalid (not Zulu).",
        }
    }
}

impl WindError {
    /// A sentence that describes the error.
    pub fn message(&self) -> (r: &'static str)
        ensures
            r@ == match *self {
                WindError::IncorrectLength => "The length of the wind information is incorrect."@,
                WindError::HeadingNotValid => "The heading is invalid."@,
                WindError::SpeedNotValid => "The speed is invalid."@,
                WindError::GustingNotValid => "The gusting speed is invalid."@,
                WindError::UnitNotValid => "The unit is not valid."@,
            },
    {
        match self {
            WindError::IncorrectLength => "The length of the wind information is incorrect.",
            WindError::HeadingNotValid => "The heading is invalid.",
            WindError::SpeedNotValid => "The speed is invalid.",
            WindError::GustingNotValid => "The gusting speed is invalid.",
            WindError::UnitNotValid => "The unit is not valid.",
        }
    }
}

impl WindVaryingError {
    /// A sentence that describes the error.
    pub fn message(&self) -> (r: &'static str)
        ensures
            r@ == match *self {
                WindVaryingError::HeadingNotValid => "The heading is invalid."@,
                WindVaryingError::NotWindVarying => "The text is not a varying wind group."@,
            },
    {
        match self {
            WindVaryingError::HeadingNotValid => "The heading is invalid.",
            WindVaryingError::NotWindVarying => "The text is not a varying wind group.",
        }
    }
}

impl CloudVisibilityError {
    /// A sentence that describes the error.
    pub fn message(&self) -> (r: &'static str)
        ensures
            r@ == match *self {
                CloudVisibilityError::UnknownData => "Unknown data for parsing."@,
            },
    {
        match self {
            CloudVisibilityError::UnknownData => "Unknown data for parsing.",
        }
    }
}

impl TemperatureError {
    /// A sentence that describes the error.
    pub fn message(&self) -> (r: &'static str)
        ensures
            r@ == match *self {
                TemperatureError::TemperatureNotValid => "The temperature is invalid."@,
                TemperatureError::DewpointNotValid => "The dewpoint is invalid."@,
                TemperatureError::NotTemperatureDewpointPair => "The text is not a temperature/dewpoint pair."@,
            },
    {
        match self {
            TemperatureError::TemperatureNotValid => "The temperature is invalid.",
            TemperatureError::DewpointNotValid => "The dewpoint is invalid.",
            TemperatureError::NotTemperatureDewpointPair => "The text is not a temperature/dewpoint pair.",
        }
    }
}

impl PressureError {
    /// A sentence that describes the error.
    pub fn message(&self) -> (r: &'static str)
        ensures
            r@ == match *self {
                PressureError::PressureNotValid => "The pressure is invalid."@,
                PressureError::UnitNotValid => "The unit is invalid."@,
            },
    {
        match self {
            PressureError::PressureNotValid => "The pressure is invalid.",
            PressureError::UnitNotValid => "The unit is invalid.",
        }
    }
}

/// An ASCII letter or digit.
pub open spec fn is_alphanumeric(b: u8) -> bool {
    (65 <= b <= 90) || (97 <= b <= 122) || is_digit(b)
}

/// The index of the first byte of `t` that is not an ASCII letter or digit, if any.
pub open spec fn first_non_alphanumeric(t: Seq<u8>, i: int) -> Option<int>
    decreases t.len() - i,
{
    if i < 0 || i >= t.len() {
        None
    } else if !is_alphanumeric(t[i]) {
        Some(i)
    } else {
        first_non_alphanumeric(t, i + 1)
    }
}

/// What checking `t` as a station identifier gives.
pub open spec fn spec_station(t: Seq<u8>) -> Result<(), (int, int, StationError)> {
    if t.len() != 4 {
        Err((0, t.len() as int, StationError::IncorrectLength))
    } else {
        match first_non_alphanumeric(t, 0) {
            Some(i) => Err((i, 1, StationError::NonAlphanumericCharacter)),
            None => Ok(()),
        }
    }
}

/// Checks that `s` is a station identifier: four ASCII letters or digits.
pub fn parse_station<'a>(s: &'a str) -> (r: Result<&'a str, (usize, usize, StationError)>)
    ensures
        match spec_station(s.spec_bytes()) {
            Ok(()) => r == Ok::<&'a str, (usize, usize, StationError)>(s),
            Err((i, n, e)) => r matches Err(x) && x.0 == i && x.1 == n && x.2 == e,
        },
{
    let b = s.as_bytes();
    if b.len() != 4 {
        return Err((0, b.len(), StationError::IncorrectLength));
    }
    let mut i: usize = 0;
    while i < 4
        invariant
            i <= 4,
            b@.len() == 4,
            b@ == s.spec_bytes(),
            first_non_alphanumeric(b@, 0) == first_non_alphanumeric(b@, i as int),
        decreases 4 - i,
    {
        let c = b[i];
        if !((65 <= c && c <= 90) || (97 <= c && c <= 122) || is_digit_byte(c)) {
            assert(!is_alphanumeric(b@[i as int]));
            return Err((i, 1, StationError::NonAlphanumericCharacter));
        }
        i = i + 1;
    }
    Ok(s)
}

/// The first byte among `t[0..3]` and `t[4..7]` that is not a digit, if any.
pub open spec fn first_non_digit(t: Seq<u8>) -> Option<int> {
    if !is_digit(t[0]) {
        Some(0)
    } else if !is_digit(t[1]) {
        Some(1)
    } else if !is_digit(t[2]) {
        Some(2)
    } else if !is_digit(t[4]) {
        Some(4)
    } else if !is_digit(t[5]) {
        Some(5)
    } else if !is_digit(t[6]) {
        Some(6)
    } else {
        None
    }
}

/// What checking `t` as a varying wind group `dddVddd` gives.
pub open spec fn spec_wind_varying(t: Seq<u8>) -> Result<(u32, u32), (int, int, WindVaryingError)> {
    if t.len() != 7 {
        Err((0, t.len() as int, WindVaryingError::NotWindVarying))
    } else if t[3] != 86 {
        Err((3, 1, WindVaryingError::NotWindVarying))
    } else if first_non_digit(t) is Some {
        Err((first_non_digit(t)->0, 1, WindVaryingError::HeadingNotValid))
    } else if number_at(t, 0, 3) > 360 {
        Err((0, 3, WindVaryingError::HeadingNotValid))
    } else if number_at(t, 4, 3) > 360 {
        Err((4, 3, WindVaryingError::HeadingNotValid))
    } else {
        Ok((number_at(t, 0, 3) as u32, number_at(t, 4, 3) as u32))
    }
}

/// Checks that `s` is a varying wind group `dddVddd` and returns its two headings.
pub fn parse_wind_varying(s: &str) -> (r: Result<(u32, u32), (usize, usize, WindVaryingError)>)
    ensures
        match spec_wind_varying(s.spec_bytes()) {
            Ok(v) => r == Ok::<(u32, u32), (usize, usize, WindVaryingError)>(v),
            Err((i, n, e)) => r matches Err(x) && x.0 == i && x.1 == n && x.2 == e,
        },
{
    let b = s.as_bytes();
    let n = b.len();
    if n != 7 {
        return Err((0, n, WindVaryingError::NotWindVarying));
    }
    if b[3] != 86 {
        return Err((3, 1, WindVaryingError::NotWindVarying));
    }
    if !is_digit_byte(b[0]) {
        return Err((0, 1, WindVaryingError::HeadingNotValid));
    }
    if !is_digit_byte(b[1]) {
        return Err((1, 1, WindVaryingError::HeadingNotValid));
    }
    if !is_digit_byte(b[2]) {
        return Err((2, 1, WindVaryingError::HeadingNotValid));
    }
    if !is_digit_byte(b[4]) {
        return Err((4, 1, WindVaryingError::HeadingNotValid));
    }
    if !is_digit_byte(b[5]) {
        return Err((5, 1, WindVaryingError::HeadingNotValid));
    }
    if !is_digit_byte(b[6]) {
        return Err((6, 1, WindVaryingError::HeadingNotValid));
    }
    assert(b@.subrange(0, 7) =~= b@);
    assert(digits_at(b@, 0, 3) && digits_at(b@, 4, 3));
    let from = read_number(b, 0, 7, 0, 3);
    let to = read_number(b, 0, 7, 4, 3);
    if from > 360 {
        return Err((0, 3, WindVaryingError::HeadingNotValid));
    }
    if to > 360 {
        return Err((4, 3, WindVaryingError::HeadingNotValid));
    }
    Ok((from, to))
}

/// What checking `t` as an observation time `ddhhmmZ` gives.
pub open spec fn spec_obs_time(t: Seq<u8>) -> Result<Time, (int, int, ObservationTimeError)> {
    if t.len() != 7 {
        Err((0, t.len() as int, ObservationTimeError::IncorrectLength))
    } else if !is_digit(t[0]) {
        Err((0, 1, ObservationTimeError::DateNotValid))
    } else if !is_digit(t[1]) {
        Err((1, 1, ObservationTimeError::DateNotValid))
    } else if number_at(t, 0, 2) > 31 {
        Err((0, 2, ObservationTimeError::DateNotValid))
    } else if !is_digit(t[2]) {
        Err((2, 1, ObservationTimeError::HourNotValid))
    } else if !is_digit(t[3]) {
        Err((3, 1, ObservationTimeError::HourNotValid))
    } else if number_at(t, 2, 2) > 23 {
        Err((2, 2, ObservationTimeError::HourNotValid))
    } else if !is_digit(t[4]) {
        Err((4, 1, ObservationTimeError::MinuteNotValid))
    } else if !is_digit(t[5]) {
        Err((5, 1, ObservationTimeError::MinuteNotValid))
    } else if number_at(t, 4, 2) > 59 {
        Err((4, 2, ObservationTimeError::MinuteNotValid))
    } else if t[6] != 90 {
        Err((6, 1, ObservationTimeError::InvalidTimeZone))
    } else {
        Ok(Time { date: number_at(t, 0, 2) as u8, hour: number_at(t, 2, 2) as u8, minute: number_at(t, 4, 2) as u8 })
    }
}

/// Checks that `s` is an observation time `ddhhmmZ` and returns it.
pub fn parse_obs_time(s: &str) -> (r: Result<Time, (usize, usize, ObservationTimeError)>)
    ensures
        match spec_obs_time(s.spec_bytes()) {
            Ok(t) => r == Ok::<Time, (usize, usize, ObservationTimeError)>(t),
            Err((i, n, e)) => r matches Err(x) && x.0 == i && x.1 == n && x.2 == e,
        },
{
    let b = s.as_bytes();
    let n = b.len();
    if n != 7 {
        return Err((0, n, ObservationTimeError::IncorrectLength));
    }
    assert(b@.subrange(0, 7) =~= b@);
    if !is_digit_byte(b[0]) {
        return Err((0, 1, ObservationTimeError::DateNotValid));
    }
    if !is_digit_byte(b[1]) {
        return Err((1, 1, ObservationTimeError::DateNotValid));
    }
    assert(digits_at(b@, 0, 2));
    let date = read_number(b, 0, 7, 0, 2);
    if date > 31 {
        return Err((0, 2, ObservationTimeError::DateNotValid));
    }
    if !is_digit_byte(b[2]) {
        return Err((2, 1, ObservationTimeError::HourNotValid));
    }
    if !is_digit_byte(b[3]) {
        return Err((3, 1, ObservationTimeError::HourNotValid));
    }
    assert(digits_at(b@, 2, 2));
    let hour = read_number(b, 0, 7, 2, 2);
    if hour > 23 {
        return Err((2, 2, ObservationTimeError::HourNotValid));
    }
    if !is_digit_byte(b[4]) {
        return Err((4, 1, ObservationTimeError::MinuteNotValid));
    }
    if !is_digit_byte(b[5]) {
        return Err((5, 1, ObservationTimeError::MinuteNotValid));
    }
    assert(digits_at(b@, 4, 2));
    let minute = read_number(b, 0, 7, 4, 2);
    if minute > 59 {
        return Err((4, 2, ObservationTimeError::MinuteNotValid));
    }
    if b[6] != 90 {
        return Err((6, 1, ObservationTimeError::InvalidTimeZone));
    }
    Ok(Time { date: date as u8, hour: hour as u8, minute: minute as u8 })
}

/// The first of the bytes 1 to 4 of `t` that is not a digit, if any.
pub open spec fn first_non_digit_of_four(t: Seq<u8>) -> Option<int> {
    if !is_digit(t[1]) {
        Some(1)
    } else if !is_digit(t[2]) {
        Some(2)
    } else if !is_digit(t[3]) {
        Some(3)
    } else if !is_digit(t[4]) {
        Some(4)
    } else {
        None
    }
}

/// What checking `t` as a pressure `Qdddd` or `Adddd` gives; `Q////` and
/// `A////` are a pressure that is not known.
pub open spec fn spec_pressure_token(t: Seq<u8>) -> Result<Data<Pressure>, (int, int, PressureError)> {
    if t.len() != 5 {
        Err((1, t.len() as int, PressureError::UnitNotValid))
    } else if (t[0] == 81 || t[0] == 65) && slashes_at(t, 1, 4) {
        Ok(Data::Unknown)
    } else if first_non_digit_of_four(t) is Some {
        Err((first_non_digit_of_four(t)->0, 1, PressureError::PressureNotValid))
    } else if t[0] == 81 {
        Ok(Data::Known(Pressure::Hectopascals(Data::Known(number_at(t, 1, 4) as u16))))
    } else if t[0] == 65 {
        Ok(Data::Known(Pressure::InchesOfMercury(Data::Known(number_at(t, 1, 4) as u16))))
    } else {
        Err((0, 1, PressureError::UnitNotValid))
    }
}

/// Checks that `s` is a pressure group and returns it.
pub fn parse_pressure(s: &str) -> (r: Result<Data<Pressure>, (usize, usize, PressureError)>)
    ensures
        match spec_pressure_token(s.spec_bytes()) {
            Ok(p) => r == Ok::<Data<Pressure>, (usize, usize, PressureError)>(p),
            Err((i, n, e)) => r matches Err(x) && x.0 == i && x.1 == n && x.2 == e,
        },
{
    let b = s.as_bytes();
    let n = b.len();
    if n != 5 {
        return Err((1, n, PressureError::UnitNotValid));
    }
    assert(b@.subrange(0, 5) =~= b@);
    if (b[0] == 81 || b[0] == 65) && check_slashes(b, 0, 5, 1, 4) {
        return Ok(Data::Unknown);
    }
    if !is_digit_byte(b[1]) {
        return Err((1, 1, PressureError::PressureNotValid));
    }
    if !is_digit_byte(b[2]) {
        return Err((2, 1, PressureError::PressureNotValid));
    }
    if !is_digit_byte(b[3]) {
        return Err((3, 1, PressureError::PressureNotValid));
    }
    if !is_digit_byte(b[4]) {
        return Err((4, 1, PressureError::PressureNotValid));
    }
    assert(digits_at(b@, 1, 4));
    let v = read_number(b, 0, 5, 1, 4) as u16;
    if b[0] == 81 {
        Ok(Data::Known(Pressure::Hectopascals(Data::Known(v))))
    } else if b[0] == 65 {
        Ok(Data::Known(Pressure::InchesOfMercury(Data::Known(v))))
    } else {
        Err((0, 1, PressureError::UnitNotValid))
    }
}

/// The first index at or after `i` where `t` holds the bytes of `pat`, or the length of `t`.
pub open spec fn find_from(t: Seq<u8>, pat: Seq<u8>, i: int) -> int
    decreases t.len() - i,
{
    if i < 0 || i >= t.len() {
        t.len() as int
    } else if i + pat.len() <= t.len() && t.subrange(i, i + pat.len()) == pat {
        i
    } else {
        find_from(t, pat, i + 1)
    }
}

/// `t` holds the bytes of `pat` somewhere.
pub open spec fn holds(t: Seq<u8>, pat: Seq<u8>) -> bool {
    find_from(t, pat, 0) < t.len()
}

/// Byte `i` of `t` is a digit; an index past the end is no digit.
pub open spec fn digit_at(t: Seq<u8>, i: int) -> bool {
    0 <= i < t.len() && is_digit(t[i])
}

/// The temperature at `i`: two digits, or `M` and two digits (below zero);
/// the offending index when it is neither.
pub open spec fn temperature_at(t: Seq<u8>, i: int) -> Result<(i32, int), int> {
    if 0 <= i < t.len() && t[i] == 77 {
        if !digit_at(t, i + 1) {
            Err(i + 1)
        } else if !digit_at(t, i + 2) {
            Err(i + 2)
        } else {
            Ok(((-number_at(t, i + 1, 2)) as i32, i + 4))
        }
    } else if !digit_at(t, i) {
        Err(i)
    } else if !digit_at(t, i + 1) {
        Err(i + 1)
    } else {
        Ok((number_at(t, i, 2) as i32, i + 3))
    }
}

/// What checking `t` as a temperature/dewpoint pair gives.
pub open spec fn spec_temperature_pair(t: Seq<u8>) -> Result<(Data<i32>, Data<i32>), (int, int, TemperatureError)> {
    let n = t.len() as int;
    if t == seq![47u8, 47u8, 47u8, 47u8, 47u8] {
        Ok((Data::Unknown, Data::Unknown))
    } else if holds(t, seq![47u8, 47u8, 47u8]) || !holds(t, seq![47u8]) || holds(t, seq![82u8])
        || holds(t, seq![83u8, 77u8]) {
        Err((0, n, TemperatureError::NotTemperatureDewpointPair))
    } else if n < 5 {
        let pos = find_from(t, seq![47u8], 0);
        if pos < 2 {
            Err((0, pos, TemperatureError::TemperatureNotValid))
        } else {
            Err((pos + 1, n - pos - 1, TemperatureError::DewpointNotValid))
        }
    } else {
        match temperature_at(t, 0) {
            Err(k) => Err((k, 1, TemperatureError::TemperatureNotValid)),
            Ok((temp, i)) => match temperature_at(t, i) {
                Err(k) => Err((k, 1, TemperatureError::DewpointNotValid)),
                Ok((dew, _)) => Ok((Data::Known(temp), Data::Known(dew))),
            },
        }
    }
}

fn find_pattern(b: &[u8], pat: &[u8]) -> (r: usize)
    ensures
        r == find_from(b@, pat@, 0),
{
    let mut i: usize = 0;
    while i < b.len()
        invariant
            i <= b@.len(),
            find_from(b@, pat@, i as int) == find_from(b@, pat@, 0),
        decreases b@.len() - i,
    {
        if crate::lexer::check_lit(b, 0, b.len(), i, pat) {
            assert(b@.subrange(0, b@.len() as int) =~= b@);
            assert(b@.subrange(0, b@.len() as int).subrange(i as int, i + pat@.len()) =~= b@.subrange(i as int, i + pat@.len()));
            return i;
        }
        assert(b@.subrange(0, b@.len() as int) =~= b@);
        i = i + 1;
    }
    b.len()
}

fn digit_at_byte(b: &[u8], i: usize) -> (r: bool)
    ensures
        r == digit_at(b@, i as int),
{
    i < b.len() && is_digit_byte(b[i])
}

fn read_temperature(b: &[u8], i: usize) -> (r: Result<(i32, usize), usize>)
    requires
        i <= 8,
    ensures
        match temperature_at(b@, i as int) {
            Ok((v, k)) => r == Ok::<(i32, usize), usize>((v, k as usize)),
            Err(k) => r == Err::<(i32, usize), usize>(k as usize),
        },
{
    assert(b@.subrange(0, b@.len() as int) =~= b@);
    if i < b.len() && b[i] == 77 {
        if !digit_at_byte(b, i + 1) {
            return Err(i + 1);
        }
        if !digit_at_byte(b, i + 2) {
            return Err(i + 2);
        }
        assert(digits_at(b@, i + 1, 2));
        let v = read_number(b, 0, b.len(), i + 1, 2) as i32;
        Ok((-v, i + 4))
    } else {
        if !digit_at_byte(b, i) {
            return Err(i);
        }
        if !digit_at_byte(b, i + 1) {
            return Err(i + 1);
        }
        assert(digits_at(b@, i as int, 2));
        let v = read_number(b, 0, b.len(), i, 2) as i32;
        Ok((v, i + 3))
    }
}

/// Checks that `s` is a temperature/dewpoint pair `TT/DD` (`M` marks a value
/// below zero) and returns the two values.
pub fn parse_temperatures(s: &str) -> (r: Result<(Data<i32>, Data<i32>), (usize, usize, TemperatureError)>)
    ensures
        match spec_temperature_pair(s.spec_bytes()) {
            Ok(v) => r == Ok::<(Data<i32>, Data<i32>), (usize, usize, TemperatureError)>(v),
            Err((i, n, e)) => r matches Err(x) && x.0 == i && x.1 == n && x.2 == e,
        },
{
    let b = s.as_bytes();
    let n = b.len();
    let blank: [u8; 5] = [47, 47, 47, 47, 47];
    let three_pat: [u8; 3] = [47, 47, 47];
    let slash_pat: [u8; 1] = [47];
    let r_pat: [u8; 1] = [82];
    let sm_pat: [u8; 2] = [83, 77];
    assert(blank@ =~= seq![47u8, 47u8, 47u8, 47u8, 47u8]);
    assert(three_pat@ =~= seq![47u8, 47u8, 47u8]);
    assert(slash_pat@ =~= seq![47u8]);
    assert(r_pat@ =~= seq![82u8]);
    assert(sm_pat@ =~= seq![83u8, 77u8]);
    assert(b@.subrange(0, n as int) =~= b@);
    if crate::lexer::is_exactly(b, 0, n, &blank) {
        return Ok((Data::Unknown, Data::Unknown));
    }
    let three = find_pattern(b, &three_pat);
    let slash = find_pattern(b, &slash_pat);
    let r_at = find_pattern(b, &r_pat);
    let sm = find_pattern(b, &sm_pat);
    if three < n || slash >= n || r_at < n || sm < n {
        return Err((0, n, TemperatureError::NotTemperatureDewpointPair));
    }
    if n < 5 {
        if slash < 2 {
            return Err((0, slash, TemperatureError::TemperatureNotValid));
        } else {
            return Err((slash + 1, n - slash - 1, TemperatureError::DewpointNotValid));
        }
    }
    match read_temperature(b, 0) {
        Err(k) => Err((k, 1, TemperatureError::TemperatureNotValid)),
        Ok((temp, i)) => match read_temperature(b, i) {
            Err(k) => Err((k, 1, TemperatureError::DewpointNotValid)),
            Ok((dew, _)) => Ok((Data::Known(temp), Data::Known(dew))),
        },
    }
}

} // verus!
