//! Diagnostics as text: their messages, and the source line drawn with the
//! offending span underlined.
use vstd::prelude::*;
use vstd::string::StringSliceAdditionalSpecFns;
use vstd::utf8::{encode_utf8, is_char_boundary};
use annotate_snippets::renderer::DecorStyle;
use annotate_snippets::{AnnotationKind, Level, Renderer, Snippet};
use crate::error::{expected_models, ErrorVariant, ExpectedModel, ExpectedNext, MetarError, OwnedMetarError};
use crate::text::push_text;

verus! {

/// The text of an error report that shows `source` with the bytes
/// `[start, end)` underlined, titled `title` and labelled `label`.
pub uninterp spec fn snippet_render(
    source: Seq<char>,
    start: int,
    end: int,
    title: Seq<char>,
    label: Seq<char>,
) -> Seq<char>;

/// Relies on annotate_snippets' `Renderer::render` (0.12): draws an error
/// report titled `title` with `source` and the span `[start, end)` of it
/// underlined and labelled `label`. Its output depends on these arguments
/// alone. It panics on a span that ends more than one byte past the end of
/// `source`, and it cuts the source's lines at the span's ends.
#[verifier::external_body]
fn render_snippet(source: &str, start: usize, end: usize, title: &str, label: &str) -> (r: String)
    requires
        start <= end <= source.spec_bytes().len(),
        is_char_boundary(source.spec_bytes(), start as int),
        is_char_boundary(source.spec_bytes(), end as int),
    ensures
        r@ == snippet_render(source@, start as int, end as int, title@, label@),
{
    let report = &[Level::ERROR.primary_title(title).element(
        Snippet::source(source).annotation(AnnotationKind::Primary.span(start..end).label(label)),
    )];
    Renderer::styled().decor_style(DecorStyle::Unicode).render(report)
}

/// How one expectation reads in a message.
pub open spec fn expected_text(e: ExpectedModel) -> Seq<char> {
    match e {
        ExpectedModel::Literal(v) => "\""@ + v + "\""@,
        ExpectedModel::Digits => "a number"@,
        ExpectedModel::SomethingElse => "something else"@,
        ExpectedModel::EndOfInput => "end of input"@,
    }
}

/// The expectations of `v`, separated by commas.
pub open spec fn joined(v: Seq<ExpectedModel>) -> Seq<char>
    decreases v.len(),
{
    if v.len() == 0 {
        Seq::empty()
    } else if v.len() == 1 {
        expected_text(v[0])
    } else {
        joined(v.drop_last()) + ", "@ + expected_text(v.last())
    }
}

/// The title of a diagnostic.
pub open spec fn variant_message(v: ErrorVariant) -> Seq<char> {
    match v {
        ErrorVariant::ExpectedFound { expected, found } => "expected one of: "@ + joined(expected_models(expected@))
            + "; "@ + match found {
            Some(c) => "found \""@ + seq![c] + "\""@,
            None => "reached end of input"@,
        },
        ErrorVariant::InvalidDate => "invalid observation date"@,
        ErrorVariant::InvalidHour => "invalid observation hour"@,
        ErrorVariant::InvalidMinute => "invalid observation minute"@,
        ErrorVariant::InvalidWindHeading => "invalid wind heading"@,
        ErrorVariant::InvalidRvrRunwayNumber => "invalid runway number in RVR"@,
        ErrorVariant::InvalidRvrDistance => "invalid distance in RVR"@,
        ErrorVariant::TrendDataCannotBeUnknown => "data in a trend must be known ahead of time"@,
    }
}

/// The label under the offending span of a diagnostic.
pub open spec fn variant_help(v: ErrorVariant) -> Seq<char> {
    match v {
        ErrorVariant::ExpectedFound { expected, .. } => "must be one of "@ + joined(expected_models(expected@)),
        ErrorVariant::InvalidDate => "the observation date must be a two digit number less than or equal to 31"@,
        ErrorVariant::InvalidHour => "the observation hour must be a two digit number less than 24"@,
        ErrorVariant::InvalidMinute => "the observation minute must be a two digit number less than 60"@,
        ErrorVariant::InvalidWindHeading => "the wind heading must be three digits between 000 and 360 inclusive"@,
        ErrorVariant::InvalidRvrRunwayNumber => "the runway number must be between 00 and 36, or 88, and may be suffixed with \"L\", \"C\" or \"R\""@,
        ErrorVariant::InvalidRvrDistance => "the RVR distance must be a 4 digit number"@,
        ErrorVariant::TrendDataCannotBeUnknown => "trend data cannot be unknown as it isn't reported as a trend if it's unknown!"@,
    }
}

fn push_expected(out: &mut String, e: &ExpectedNext)
    ensures
        final(out)@ == old(out)@ + expected_text(e@),
{
    match e {
        ExpectedNext::Literal { value } => {
            push_text(out, "\"");
            push_text(out, value.as_str());
            push_text(out, "\"");
            assert(final(out)@ =~= old(out)@ + expected_text(e@));
        },
        ExpectedNext::Digits => push_text(out, "a number"),
        ExpectedNext::SomethingElse => push_text(out, "something else"),
        ExpectedNext::EndOfInput => push_text(out, "end of input"),
    }
}

fn push_joined(out: &mut String, v: &Vec<ExpectedNext>)
    ensures
        final(out)@ == old(out)@ + joined(expected_models(v@)),
{
    let ghost m = expected_models(v@);
    let ghost start = out@;
    let mut i: usize = 0;
    while i < v.len()
        invariant
            i <= v@.len(),
            m == expected_models(v@),
            out@ == start + joined(m.take(i as int)),
        decreases v@.len() - i,
    {
        let ghost before = out@;
        if i > 0 {
            push_text(out, ", ");
        }
        push_expected(out, &v[i]);
        assert(m.take(i + 1).drop_last() =~= m.take(i as int));
        assert(m.take(i + 1).last() == v@[i as int]@);
        if i == 0 {
            assert(joined(m.take(0)) =~= Seq::<char>::empty());
            assert(out@ =~= start + joined(m.take(i + 1)));
        } else {
            assert(out@ =~= start + joined(m.take(i + 1)));
        }
        i = i + 1;
    }
    assert(m.take(v@.len() as int) =~= m);
}

impl ErrorVariant {
    /// The title of a diagnostic of this kind.
    pub fn message(&self) -> (r: String)
        ensures
            r@ == variant_message(*self),
    {
        let mut out = String::new();
        match self {
            ErrorVariant::ExpectedFound { expected, found } => {
                push_text(&mut out, "expected one of: ");
                push_joined(&mut out, expected);
                push_text(&mut out, "; ");
                match found {
                    Some(c) => {
                        push_text(&mut out, "found \"");
                        crate::text::push_char(&mut out, *c);
                        push_text(&mut out, "\"");
                    },
                    None => push_text(&mut out, "reached end of input"),
                }
                assert(out@ =~= variant_message(*self));
            },
            ErrorVariant::InvalidDate => push_text(&mut out, "invalid observation date"),
            ErrorVariant::InvalidHour => push_text(&mut out, "invalid observation hour"),
            ErrorVariant::InvalidMinute => push_text(&mut out, "invalid observation minute"),
            ErrorVariant::InvalidWindHeading => push_text(&mut out, "invalid wind heading"),
            ErrorVariant::InvalidRvrRunwayNumber => push_text(&mut out, "invalid runway number in RVR"),
            ErrorVariant::InvalidRvrDistance => push_text(&mut out, "invalid distance in RVR"),
            ErrorVariant::TrendDataCannotBeUnknown => push_text(&mut out, "data in a trend must be known ahead of time"),
        }
        assert(out@ =~= variant_message(*self));
        out
    }

    /// The label under the offending span of a diagnostic of this kind.
    pub fn help(&self) -> (r: String)
        ensures
            r@ == variant_help(*self),
    {
        let mut out = String::new();
        match self {
            ErrorVariant::ExpectedFound { expected, .. } => {
                push_text(&mut out, "must be one of ");
                push_joined(&mut out, expected);
            },
            ErrorVariant::InvalidDate => push_text(
                &mut out,
                "the observation date must be a two digit number less than or equal to 31",
            ),
            ErrorVariant::InvalidHour => push_text(&mut out, "the observation hour must be a two digit number less than 24"),
            ErrorVariant::InvalidMinute => push_text(
                &mut out,
                "the observation minute must be a two digit number less than 60",
            ),
            ErrorVariant::InvalidWindHeading => push_text(
                &mut out,
                "the wind heading must be three digits between 000 and 360 inclusive",
            ),
            ErrorVariant::InvalidRvrRunwayNumber => push_text(
                &mut out,
                "the runway number must be between 00 and 36, or 88, and may be suffixed with \"L\", \"C\" or \"R\"",
            ),
            ErrorVariant::InvalidRvrDistance => push_text(&mut out, "the RVR distance must be a 4 digit number"),
            ErrorVariant::TrendDataCannotBeUnknown => push_text(
                &mut out,
                "trend data cannot be unknown as it isn't reported as a trend if it's unknown!",
            ),
        }
        assert(out@ =~= variant_help(*self));
        out
    }
}

/// The span `[start, end)` can be drawn under `source`.
pub open spec fn drawable(source: Seq<u8>, start: int, end: int) -> bool {
    start <= end <= source.len() && is_char_boundary(source, start) && is_char_boundary(source, end)
}

/// A diagnostic as text: the source line with the span underlined, under the
/// title and with the label; just the title when the span cannot be drawn.
fn render_error(source: &str, start: usize, end: usize, variant: &ErrorVariant) -> (r: String)
    ensures
        drawable(source.spec_bytes(), start as int, end as int) ==> r@ == snippet_render(
            source@,
            start as int,
            end as int,
            variant_message(*variant),
            variant_help(*variant),
        ),
        !drawable(source.spec_bytes(), start as int, end as int) ==> r@ == variant_message(*variant),
{
    let title = variant.message();
    let ok = start <= end && end <= source.as_bytes().len() && source.is_char_boundary(start) && source.is_char_boundary(end);
    assert(ok == drawable(source.spec_bytes(), start as int, end as int));
    if ok {
        let label = variant.help();
        let r = render_snippet(source, start, end, title.as_str(), label.as_str());
        assert(r@ == snippet_render(source@, start as int, end as int, title@, label@));
        r
    } else {
        title
    }
}

impl<'a> MetarError<'a> {
    /// This diagnostic as text: the report line with the offending span
    /// underlined, titled with what went wrong and labelled with what would
    /// have been accepted.
    pub fn render(&self) -> (r: String)
        ensures
            drawable(self.string.spec_bytes(), self.start as int, self.end as int) ==> r@ == snippet_render(
                self.string@,
                self.start as int,
                self.end as int,
                variant_message(self.variant),
                variant_help(self.variant),
            ),
            !drawable(self.string.spec_bytes(), self.start as int, self.end as int) ==> r@ == variant_message(
                self.variant,
            ),
    {
        render_error(self.string, self.start, self.end, &self.variant)
    }
}

impl OwnedMetarError {
    /// This diagnostic as text; see [`MetarError::render`].
    pub fn render(&self) -> (r: String)
        ensures
            drawable(encode_utf8(self.string@), self.start as int, self.end as int) ==> r@ == snippet_render(
                self.string@,
                self.start as int,
                self.end as int,
                variant_message(self.variant),
                variant_help(self.variant),
            ),
            !drawable(encode_utf8(self.string@), self.start as int, self.end as int) ==> r@
                == variant_message(self.variant),
    {
        render_error(self.string.as_str(), self.start, self.end, &self.variant)
    }
}

} // verus!
