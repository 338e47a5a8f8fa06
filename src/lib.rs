//! Decoding of aviation routine weather reports (METAR/SPECI) into typed
//! records, with diagnostics that point at the group that could not be read.
use vstd::prelude::*;

pub mod cloud;
pub mod colour;
pub mod data;
pub mod diag;
pub mod error;
pub mod lemmas;
pub mod lexer;
pub mod metar;
pub mod outcome;
pub mod parsers;
pub mod pressure;
pub mod render;
pub mod run;
pub mod runway;
pub mod sea;
pub mod text;
pub mod time;
pub mod trend;
pub mod visibility;
pub mod weather;
pub mod wind;
pub mod windshear;

pub use cloud::{CloudDensity, CloudLayer, CloudType, Clouds, VerticalVisibility};
pub use colour::ColourCode;
pub use data::Data;
pub use error::{ErrorVariant, ExpectedNext, MetarError, OwnedMetarError};
pub use metar::{Kind, Metar};
pub use outcome::{FieldError, Outcome};
pub use parsers::{
    parse_obs_time, parse_pressure, parse_station, parse_temperatures, parse_wind_varying, CloudVisibilityError,
    ObservationTimeError, PressureError, StationError, TemperatureError, WindError, WindVaryingError,
};
pub use pressure::Pressure;
pub use runway::{
    RunwayCondition, RunwayContamination, RunwayDeposits, RunwayVisualRange, RvrTrend, RvrUnit, RvrValue,
    RvrValueInner,
};
pub use sea::{SeaCondition, SeaConditionInner, SeaState};
pub use time::Time;
pub use trend::{Trend, TrendNewCondition, TrendTime};
pub use visibility::{CompassDirection, Visibility};
pub use weather::{Weather, WeatherCondition, WeatherIntensity};
pub use wind::{Wind, WindDirection, WindSpeed};
pub use windshear::{WindshearGroup, WindshearWarnings};
