//! What a field grammar makes of the text it is given.
use vstd::prelude::*;

verus! {

/// A check that fails after a group's shape has matched.
#[derive(PartialEq, Eq, Copy, Clone, Debug, Hash)]
pub enum FieldError {
    /// The observation date is above 31
    InvalidDate,
    /// The observation hour is above 23
    InvalidHour,
    /// The observation minute is above 59
    InvalidMinute,
    /// A wind heading is above 360
    InvalidWindHeading,
    /// A runway number is neither at most 36 nor 88
    InvalidRvrRunwayNumber,
    /// A runway visual range distance is not a number
    InvalidRvrDistance,
    /// A trend gives a value as unknown
    TrendDataCannotBeUnknown,
}

/// The result of decoding one group of a report.
#[derive(PartialEq, Eq, Copy, Clone, Debug, Hash)]
pub enum Outcome<T> {
    /// The text does not have the group's shape
    NoMatch,
    /// The text has the shape and decodes to this value
    Value(T),
    /// The text has the shape but a value is out of its range
    Invalid(FieldError),
}

impl<T> Outcome<T> {
    /// Whether the text decoded to a value.
    pub fn is_value(&self) -> (r: bool)
        ensures
            r == (self is Value),
    {
        match self {
            Outcome::Value(_) => true,
            _ => false,
        }
    }
}

} // verus!
