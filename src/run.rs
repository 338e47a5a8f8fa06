//! Runs of consecutive groups of one kind.
use vstd::prelude::*;
use crate::lexer::{next_tok, token};
use crate::outcome::{FieldError, Outcome};

verus! {

/// The items that `f` makes of consecutive tokens from `p` on, up to the
/// first token it makes nothing of; and where that token starts.
pub open spec fn run<T>(s: Seq<u8>, p: int, f: spec_fn(Seq<u8>) -> Option<T>) -> (Seq<T>, int)
    decreases s.len() - p,
{
    if 0 <= p < next_tok(s, p) <= s.len() && f(token(s, p)) is Some {
        let rest = run(s, next_tok(s, p), f);
        (seq![f(token(s, p))->0] + rest.0, rest.1)
    } else {
        (Seq::empty(), p)
    }
}

/// Like [`run`], for groups whose decoding can fail a check: the items up to
/// the first token that does not decode to a value, where it starts, and the
/// failed check if that token failed one.
pub open spec fn run_checked<T>(s: Seq<u8>, p: int, f: spec_fn(Seq<u8>) -> Outcome<T>) -> (Seq<T>, int, Option<FieldError>)
    decreases s.len() - p,
{
    if 0 <= p < next_tok(s, p) <= s.len() {
        match f(token(s, p)) {
            Outcome::Value(v) => {
                let rest = run_checked(s, next_tok(s, p), f);
                (seq![v] + rest.0, rest.1, rest.2)
            },
            Outcome::Invalid(e) => (Seq::empty(), p, Some(e)),
            Outcome::NoMatch => (Seq::empty(), p, None),
        }
    } else {
        (Seq::empty(), p, None)
    }
}

} // verus!
