//! Building diagnostics from positions in the text.
use vstd::prelude::*;
use vstd::string::StringSliceAdditionalSpecFns;
use crate::error::{ErrorVariant, ExpectedNext, MetarError, variant_of};
use crate::outcome::{FieldError, Outcome};

verus! {

/// The character found at byte `p`: the byte itself when it is ASCII, the
/// replacement character when it starts or continues a multi-byte one, and
/// nothing at the end of the text.
pub open spec fn found_at(s: Seq<u8>, p: int) -> Option<char> {
    if p < 0 || p >= s.len() {
        None
    } else if s[p] < 128 {
        Some(s[p] as char)
    } else {
        Some('\u{FFFD}')
    }
}

pub fn found_char(s: &[u8], p: usize) -> (r: Option<char>)
    ensures
        r == found_at(s@, p as int),
{
    if p >= s.len() {
        None
    } else if s[p] < 128 {
        Some(s[p] as char)
    } else {
        Some('\u{FFFD}')
    }
}

/// An expectation of the literal text `lit`.
pub fn literal(lit: &str) -> (r: ExpectedNext)
    ensures
        r matches ExpectedNext::Literal { value } && value@ == lit@,
{
    ExpectedNext::Literal { value: lit.to_string() }
}

/// The error for text `[start, end)` of `input`: the failed check when there
/// is one, else what was expected and what was found at `start`.
pub fn error_at<'a>(
    input: &'a str,
    start: usize,
    end: usize,
    failed: Option<FieldError>,
    expected: Vec<ExpectedNext>,
) -> (r: MetarError<'a>)
    requires
        start <= end <= input.spec_bytes().len(),
    ensures
        r.string == input,
        r.start == start,
        r.end == end,
        failed matches Some(f) ==> variant_of(r.variant, f),
        failed is None ==> r.variant == (ErrorVariant::ExpectedFound {
            expected,
            found: found_at(input.spec_bytes(), start as int),
        }),
{
    let variant = match failed {
        Some(f) => ErrorVariant::from_field_error(f),
        None => ErrorVariant::ExpectedFound { expected, found: found_char(input.as_bytes(), start) },
    };
    MetarError { string: input, start, end, variant }
}

/// `r` is what parsing the whole of `input` as one group gives, when the
/// group's grammar makes `o` of it: the value, or one error that spans the
/// whole text and names the failed check or the character found.
pub open spec fn whole_result<'a, T>(r: Result<T, Vec<MetarError<'a>>>, o: Outcome<T>, input: &'a str) -> bool {
    match o {
        Outcome::Value(v) => r == Ok::<T, Vec<MetarError<'a>>>(v),
        Outcome::Invalid(f) => r matches Err(es) && es@.len() == 1 && es@[0].string == input
            && es@[0].start == 0 && es@[0].end == input.spec_bytes().len()
            && variant_of(es@[0].variant, f),
        Outcome::NoMatch => r matches Err(es) && es@.len() == 1 && es@[0].string == input
            && es@[0].start == 0 && es@[0].end == input.spec_bytes().len()
            && (es@[0].variant matches ErrorVariant::ExpectedFound { found, .. }
            && found == found_at(input.spec_bytes(), 0)),
    }
}

/// Turns the outcome of decoding the whole of `input` into a result.
pub fn finish<'a, T>(input: &'a str, o: Outcome<T>, expected: Vec<ExpectedNext>) -> (r: Result<T, Vec<MetarError<'a>>>)
    ensures
        whole_result(r, o, input),
{
    let len = input.as_bytes().len();
    match o {
        Outcome::Value(v) => Ok(v),
        Outcome::Invalid(f) => {
            let mut es: Vec<MetarError<'a>> = Vec::new();
            es.push(error_at(input, 0, len, Some(f), expected));
            Err(es)
        },
        Outcome::NoMatch => {
            let mut es: Vec<MetarError<'a>> = Vec::new();
            es.push(error_at(input, 0, len, None, expected));
            Err(es)
        },
    }
}

} // verus!
