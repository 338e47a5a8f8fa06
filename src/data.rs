//! The two-state container for fields that a report may give as
//! "reported but unknown" (a run of slashes) instead of a value.
use vstd::prelude::*;

verus! {

/// Data that is provided in a METAR but might be unknown.
///
/// This differs from an `Option<T>` field, which is used when data might not
/// be given at all. Where `Data<T>` is used, the data is usually given but
/// has been replaced in the report by slashes, which means it is not known.
#[derive(PartialEq, Eq, Copy, Clone, Debug, Hash)]
pub enum Data<T> {
    /// The data is known and given
    Known(T),
    /// The data isn't or cannot be known
    Unknown,
}

impl<T> Data<T> {
    /// Gets a new `Data` that has a `&T` inside it.
    pub fn as_ref(&self) -> (r: Data<&T>)
        ensures
            (r is Unknown) == (self is Unknown),
            r matches Data::Known(v) ==> self matches Data::Known(w) && *v == w,
    {
        match self {
            Data::Known(v) => Data::Known(v),
            Data::Unknown => Data::Unknown,
        }
    }

    /// Unwraps the inner value; the data must be known.
    pub fn unwrap(self) -> (r: T)
        requires
            self is Known,
        ensures
            self == Data::Known(r),
    {
        match self {
            Data::Known(v) => v,
            Data::Unknown => unreached(),
        }
    }

    /// Whether the data is known.
    pub fn is_known(&self) -> (r: bool)
        ensures
            r == (self is Known),
    {
        match self {
            Data::Known(_) => true,
            Data::Unknown => false,
        }
    }
}

} // verus!
