//! Position-tagged diagnostics: what went wrong, and where in the text.
use vstd::prelude::*;
use crate::outcome::FieldError;

verus! {

/// What the parser would have accepted at the failing position.
#[derive(PartialEq, Eq, Clone, Debug)]
pub enum ExpectedNext {
    /// This literal text
    Literal {
        /// The text itself
        value: String,
    },
    /// A number
    Digits,
    /// Something that has no short description
    SomethingElse,
    /// The end of the input
    EndOfInput,
}

/// The mathematical content of an [`ExpectedNext`].
pub enum ExpectedModel {
    Literal(Seq<char>),
    Digits,
    SomethingElse,
    EndOfInput,
}

impl View for ExpectedNext {
    type V = ExpectedModel;

    open spec fn view(&self) -> ExpectedModel {
        match self {
            ExpectedNext::Literal { value } => ExpectedModel::Literal(value@),
            ExpectedNext::Digits => ExpectedModel::Digits,
            ExpectedNext::SomethingElse => ExpectedModel::SomethingElse,
            ExpectedNext::EndOfInput => ExpectedModel::EndOfInput,
        }
    }
}

/// The models of a list of expectations, in order.
pub open spec fn expected_models(v: Seq<ExpectedNext>) -> Seq<ExpectedModel> {
    v.map_values(|e: ExpectedNext| e@)
}

/// Appends to `acc` each item of `b` that `acc` does not hold yet, in order.
pub open spec fn merge_models(acc: Seq<ExpectedModel>, b: Seq<ExpectedModel>) -> Seq<ExpectedModel>
    decreases b.len(),
{
    if b.len() == 0 {
        acc
    } else {
        merge_models(
            if acc.contains(b[0]) {
                acc
            } else {
                acc.push(b[0])
            },
            b.subrange(1, b.len() as int),
        )
    }
}

/// The kind of error that occurred.
#[derive(PartialEq, Eq, Clone, Debug)]
pub enum ErrorVariant {
    /// No alternative matched: any of `expected` would have, but `found`
    /// (or the end of the input, when `None`) came instead
    ExpectedFound {
        /// What would have been accepted
        expected: Vec<ExpectedNext>,
        /// What was there instead
        found: Option<char>,
    },
    /// The observation date is above 31
    InvalidDate,
    /// The observation hour is above 23
    InvalidHour,
    /// The observation minute is above 59
    InvalidMinute,
    /// A wind heading is above 360
    InvalidWindHeading,
    /// A runway number is out of range
    InvalidRvrRunwayNumber,
    /// A runway visual range distance is not a number
    InvalidRvrDistance,
    /// A trend gives a value as unknown
    TrendDataCannotBeUnknown,
}

/// `v` is the diagnostic variant for the failed check `f`.
pub open spec fn variant_of(v: ErrorVariant, f: FieldError) -> bool {
    match f {
        FieldError::InvalidDate => v is InvalidDate,
        FieldError::InvalidHour => v is InvalidHour,
        FieldError::InvalidMinute => v is InvalidMinute,
        FieldError::InvalidWindHeading => v is InvalidWindHeading,
        FieldError::InvalidRvrRunwayNumber => v is InvalidRvrRunwayNumber,
        FieldError::InvalidRvrDistance => v is InvalidRvrDistance,
        FieldError::TrendDataCannotBeUnknown => v is TrendDataCannotBeUnknown,
    }
}

impl ErrorVariant {
    /// The diagnostic variant for a failed check.
    pub fn from_field_error(f: FieldError) -> (r: ErrorVariant)
        ensures
            variant_of(r, f),
    {
        match f {
            FieldError::InvalidDate => ErrorVariant::InvalidDate,
            FieldError::InvalidHour => ErrorVariant::InvalidHour,
            FieldError::InvalidMinute => ErrorVariant::InvalidMinute,
            FieldError::InvalidWindHeading => ErrorVariant::InvalidWindHeading,
            FieldError::InvalidRvrRunwayNumber => ErrorVariant::InvalidRvrRunwayNumber,
            FieldError::InvalidRvrDistance => ErrorVariant::InvalidRvrDistance,
            FieldError::TrendDataCannotBeUnknown => ErrorVariant::TrendDataCannotBeUnknown,
        }
    }
}

/// An error found when parsing a METAR, borrowing the text it points into.
#[derive(PartialEq, Eq, Clone, Debug)]
pub struct MetarError<'a> {
    /// The string being parsed
    pub string: &'a str,
    /// The byte offset where the offending span starts
    pub start: usize,
    /// The byte offset where the offending span ends
    pub end: usize,
    /// The kind of error that occurred
    pub variant: ErrorVariant,
}

/// An error found when parsing a METAR, holding its own copy of the text.
#[derive(PartialEq, Eq, Clone, Debug)]
pub struct OwnedMetarError {
    /// The string being parsed
    pub string: String,
    /// The byte offset where the offending span starts
    pub start: usize,
    /// The byte offset where the offending span ends
    pub end: usize,
    /// The kind of error that occurred
    pub variant: ErrorVariant,
}

/// `a` and `b` are the same variant and say the same.
pub open spec fn same_variant(a: ErrorVariant, b: ErrorVariant) -> bool {
    match (a, b) {
        (
            ErrorVariant::ExpectedFound { expected: e1, found: f1 },
            ErrorVariant::ExpectedFound { expected: e2, found: f2 },
        ) => e1@ == e2@ && f1 == f2,
        (ErrorVariant::ExpectedFound { .. }, _) => false,
        (_, ErrorVariant::ExpectedFound { .. }) => false,
        _ => a == b,
    }
}

/// A copy of one expectation.
pub fn copy_expected(e: &ExpectedNext) -> (r: ExpectedNext)
    ensures
        r@ == e@,
{
    match e {
        ExpectedNext::Literal { value } => ExpectedNext::Literal { value: value.clone() },
        ExpectedNext::Digits => ExpectedNext::Digits,
        ExpectedNext::SomethingElse => ExpectedNext::SomethingElse,
        ExpectedNext::EndOfInput => ExpectedNext::EndOfInput,
    }
}

/// Whether two expectations say the same.
pub fn same_expected(a: &ExpectedNext, b: &ExpectedNext) -> (r: bool)
    ensures
        r == (a@ == b@),
{
    match (a, b) {
        (ExpectedNext::Literal { value: x }, ExpectedNext::Literal { value: y }) => {
            let r = *x == *y;
            proof {
                if !r {
                    assert(a@ != b@) by {
                        if a@ == b@ {
                            assert(x@ == y@);
                        }
                    }
                }
            }
            r
        },
        (ExpectedNext::Digits, ExpectedNext::Digits) => true,
        (ExpectedNext::SomethingElse, ExpectedNext::SomethingElse) => true,
        (ExpectedNext::EndOfInput, ExpectedNext::EndOfInput) => true,
        _ => false,
    }
}

/// Whether `v` holds an expectation that says the same as `e`.
pub fn holds_expected(v: &Vec<ExpectedNext>, e: &ExpectedNext) -> (r: bool)
    ensures
        r == expected_models(v@).contains(e@),
{
    let mut i: usize = 0;
    while i < v.len()
        invariant
            i <= v@.len(),
            forall|j: int| 0 <= j < i ==> (#[trigger] v@[j])@ != e@,
        decreases v@.len() - i,
    {
        if same_expected(&v[i], e) {
            assert(expected_models(v@)[i as int] == e@);
            return true;
        }
        i = i + 1;
    }
    assert(!expected_models(v@).contains(e@)) by {
        if expected_models(v@).contains(e@) {
            let j = choose|j: int| 0 <= j < expected_models(v@).len() && expected_models(v@)[j] == e@;
            assert(v@[j]@ == e@);
        }
    }
    false
}

/// Adds to `into` each expectation of `from` that it does not hold yet, in order.
pub fn merge_expected(into: &mut Vec<ExpectedNext>, from: &Vec<ExpectedNext>)
    ensures
        expected_models(final(into)@) == merge_models(expected_models(old(into)@), expected_models(from@)),
{
    let ghost b = expected_models(from@);
    assert(b.subrange(0, b.len() as int) =~= b);
    let mut i: usize = 0;
    while i < from.len()
        invariant
            i <= from@.len(),
            b == expected_models(from@),
            merge_models(expected_models(into@), b.subrange(i as int, b.len() as int))
                == merge_models(expected_models(old(into)@), b),
        decreases from@.len() - i,
    {
        let ghost acc = expected_models(into@);
        let ghost rest = b.subrange(i as int, b.len() as int);
        assert(rest[0] == from@[i as int]@);
        assert(rest.subrange(1, rest.len() as int) =~= b.subrange(i + 1, b.len() as int));
        if !holds_expected(into, &from[i]) {
            let e = copy_expected(&from[i]);
            into.push(e);
            assert(expected_models(into@) =~= acc.push(rest[0]));
        }
        i = i + 1;
    }
    assert(b.subrange(i as int, b.len() as int) =~= Seq::<ExpectedModel>::empty());
}

impl<'a> MetarError<'a> {
    /// Merges two errors found at the same position: when both list what was
    /// expected, the lists are united; otherwise `self` is kept.
    pub fn merge(self, other: Self) -> (r: Self)
        ensures
            r.string == self.string,
            r.start == self.start,
            r.end == self.end,
            (self.variant matches ErrorVariant::ExpectedFound { .. }
                && other.variant matches ErrorVariant::ExpectedFound { .. }) ==> (
                r.variant matches ErrorVariant::ExpectedFound { expected, found }
                && self.variant matches ErrorVariant::ExpectedFound { expected: e1, found: f1 }
                && other.variant matches ErrorVariant::ExpectedFound { expected: e2, .. }
                && found == f1
                && expected_models(expected@) == merge_models(expected_models(e1@), expected_models(e2@))
            ),
            !(self.variant matches ErrorVariant::ExpectedFound { .. }
                && other.variant matches ErrorVariant::ExpectedFound { .. }) ==> r == self,
    {
        let MetarError { string, start, end, variant } = self;
        match (variant, other.variant) {
            (ErrorVariant::ExpectedFound { expected, found }, ErrorVariant::ExpectedFound { expected: more, .. }) => {
                let mut expected = expected;
                merge_expected(&mut expected, &more);
                MetarError { string, start, end, variant: ErrorVariant::ExpectedFound { expected, found } }
            },
            (variant, _) => MetarError { string, start, end, variant },
        }
    }

    /// Converts this error into an [`OwnedMetarError`].
    pub fn into_owned(&self) -> (r: OwnedMetarError)
        ensures
            r.string@ == self.string@,
            r.start == self.start,
            r.end == self.end,
            same_variant(r.variant, self.variant),
    {
        OwnedMetarError {
            string: self.string.to_owned(),
            start: self.start,
            end: self.end,
            variant: clone_variant(&self.variant),
        }
    }
}

/// A copy of an error variant.
pub fn clone_variant(v: &ErrorVariant) -> (r: ErrorVariant)
    ensures
        same_variant(r, *v),
{
    match v {
        ErrorVariant::ExpectedFound { expected, found } => {
            let mut copy: Vec<ExpectedNext> = Vec::new();
            let mut i: usize = 0;
            while i < expected.len()
                invariant
                    i <= expected@.len(),
                    copy@.len() == i,
                    forall|j: int| 0 <= j < i ==> #[trigger] copy@[j] == expected@[j],
                decreases expected@.len() - i,
            {
                let e = match &expected[i] {
                    ExpectedNext::Literal { value } => ExpectedNext::Literal { value: value.clone() },
                    ExpectedNext::Digits => ExpectedNext::Digits,
                    ExpectedNext::SomethingElse => ExpectedNext::SomethingElse,
                    ExpectedNext::EndOfInput => ExpectedNext::EndOfInput,
                };
                copy.push(e);
                i = i + 1;
            }
            assert(copy@ =~= expected@);
            ErrorVariant::ExpectedFound { expected: copy, found: *found }
        },
        ErrorVariant::InvalidDate => ErrorVariant::InvalidDate,
        ErrorVariant::InvalidHour => ErrorVariant::InvalidHour,
        ErrorVariant::InvalidMinute => ErrorVariant::InvalidMinute,
        ErrorVariant::InvalidWindHeading => ErrorVariant::InvalidWindHeading,
        ErrorVariant::InvalidRvrRunwayNumber => ErrorVariant::InvalidRvrRunwayNumber,
        ErrorVariant::InvalidRvrDistance => ErrorVariant::InvalidRvrDistance,
        ErrorVariant::TrendDataCannotBeUnknown => ErrorVariant::TrendDataCannotBeUnknown,
    }
}

} // verus!
