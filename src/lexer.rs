//! Byte-level building blocks shared by every field grammar: character
//! classes, token boundaries and fixed-width decimal numbers.
use vstd::prelude::*;
use vstd::utf8::{
    is_char_boundary, is_char_boundary_iff_not_is_continuation_byte, is_char_boundary_start_end_of_seq,
    is_continuation_byte, pop_first_scalar, length_of_first_scalar, valid_utf8,
};

verus! {

/// A space or a tab: the inline whitespace that separates groups.
pub open spec fn is_ws(b: u8) -> bool {
    b == 32 || b == 9
}

/// A byte that ends a token: inline whitespace or the report terminator `=`.
pub open spec fn is_sep(b: u8) -> bool {
    is_ws(b) || b == 61
}

pub open spec fn is_digit(b: u8) -> bool {
    48 <= b <= 57
}

pub open spec fn is_upper_or_digit(b: u8) -> bool {
    (65 <= b <= 90) || is_digit(b)
}

pub open spec fn digit_value(b: u8) -> int {
    b - 48
}

/// `n` decimal digits start at index `i` of `t`.
pub open spec fn digits_at(t: Seq<u8>, i: int, n: int) -> bool {
    0 <= i && i + n <= t.len() && forall|k: int| i <= k < i + n ==> is_digit(#[trigger] t[k])
}

/// The value of the `n` decimal digits that start at index `i` of `t`.
pub open spec fn number_at(t: Seq<u8>, i: int, n: int) -> int
    decreases n,
{
    if n <= 0 {
        0
    } else {
        number_at(t, i, n - 1) * 10 + digit_value(t[i + n - 1])
    }
}

/// `n` slashes start at index `i` of `t`.
pub open spec fn slashes_at(t: Seq<u8>, i: int, n: int) -> bool {
    0 <= i && i + n <= t.len() && forall|k: int| i <= k < i + n ==> #[trigger] t[k] == 47u8
}

pub proof fn lemma_number_bound(t: Seq<u8>, i: int, n: int)
    requires
        0 <= n,
        digits_at(t, i, n),
    ensures
        0 <= number_at(t, i, n) < pow10(n as nat),
    decreases n,
{
    if n > 0 {
        assert(digits_at(t, i, n - 1));
        lemma_number_bound(t, i, n - 1);
        assert(is_digit(t[i + n - 1]));
        assert(pow10(n as nat) == 10 * pow10((n - 1) as nat));
    }
}

/// The first index at or after `p` that ends the token starting at `p`.
pub open spec fn tok_end(s: Seq<u8>, p: int) -> int
    decreases s.len() - p,
{
    if 0 <= p < s.len() && !is_sep(s[p]) {
        tok_end(s, p + 1)
    } else {
        p
    }
}

/// The first index at or after `p` that is not inline whitespace.
pub open spec fn skip_ws(s: Seq<u8>, p: int) -> int
    decreases s.len() - p,
{
    if 0 <= p < s.len() && is_ws(s[p]) {
        skip_ws(s, p + 1)
    } else {
        p
    }
}

/// The token (maximal run of non-separator bytes) that starts at `p`.
pub open spec fn token(s: Seq<u8>, p: int) -> Seq<u8> {
    s.subrange(p, tok_end(s, p))
}

/// Where the token after the one at `p` starts.
pub open spec fn next_tok(s: Seq<u8>, p: int) -> int {
    skip_ws(s, tok_end(s, p))
}

/// `p` is where a group may start or end: the start or end of the text, at
/// a separator, or just after one.
pub open spec fn anchored(s: Seq<u8>, p: int) -> bool {
    p == 0 || p == s.len() || (0 <= p < s.len() && is_sep(s[p])) || (0 < p <= s.len() && is_sep(s[p - 1]))
}

pub proof fn lemma_tok_end_anchored(s: Seq<u8>, p: int)
    requires
        0 <= p <= s.len(),
    ensures
        anchored(s, tok_end(s, p)),
{
    lemma_tok_end_bounds(s, p);
}

pub proof fn lemma_skip_ws_anchored(s: Seq<u8>, p: int)
    requires
        0 <= p <= s.len(),
        anchored(s, p),
    ensures
        anchored(s, skip_ws(s, p)),
    decreases s.len() - p,
{
    if p < s.len() && is_ws(s[p]) {
        lemma_skip_ws_anchored(s, p + 1);
    }
}

/// In valid UTF-8, the byte after an ASCII character starts a character.
proof fn lemma_ascii_step(b: Seq<u8>, i: int)
    requires
        valid_utf8(b),
        0 <= i < b.len(),
        b[i] < 0x80,
        is_char_boundary(b, i),
    ensures
        is_char_boundary(b, i + 1),
    decreases b.len(),
{
    let rest = pop_first_scalar(b);
    let l = length_of_first_scalar(b);
    if i == 0 {
        assert(l == 1);
        assert(is_char_boundary(rest, 0));
    } else {
        assert(is_char_boundary(rest, i - l));
        assert(i - l >= 0);
        assert(rest[i - l] == b[i]);
        lemma_ascii_step(rest, i - l);
    }
}

/// An anchored position of valid UTF-8 text is a character boundary.
pub proof fn lemma_anchored_boundary(b: Seq<u8>, p: int)
    requires
        valid_utf8(b),
        0 <= p <= b.len(),
        anchored(b, p),
    ensures
        is_char_boundary(b, p),
{
    is_char_boundary_start_end_of_seq(b);
    if p == 0 || p == b.len() {
    } else if is_sep(b[p]) {
        is_char_boundary_iff_not_is_continuation_byte(b, p);
    } else {
        is_char_boundary_iff_not_is_continuation_byte(b, p - 1);
        lemma_ascii_step(b, p - 1);
    }
}

pub proof fn lemma_tok_end_bounds(s: Seq<u8>, p: int)
    requires
        0 <= p <= s.len(),
    ensures
        p <= tok_end(s, p) <= s.len(),
        tok_end(s, p) < s.len() ==> is_sep(s[tok_end(s, p)]),
        forall|k: int| p <= k < tok_end(s, p) ==> !is_sep(#[trigger] s[k]),
    decreases s.len() - p,
{
    if p < s.len() && !is_sep(s[p]) {
        lemma_tok_end_bounds(s, p + 1);
    }
}

pub proof fn lemma_skip_ws_bounds(s: Seq<u8>, p: int)
    requires
        0 <= p <= s.len(),
    ensures
        p <= skip_ws(s, p) <= s.len(),
        skip_ws(s, p) < s.len() ==> !is_ws(s[skip_ws(s, p)]),
    decreases s.len() - p,
{
    if p < s.len() && is_ws(s[p]) {
        lemma_skip_ws_bounds(s, p + 1);
    }
}

pub proof fn lemma_next_tok_bounds(s: Seq<u8>, p: int)
    requires
        0 <= p <= s.len(),
    ensures
        tok_end(s, p) <= next_tok(s, p) <= s.len(),
        p <= next_tok(s, p),
        p < s.len() && !is_sep(s[p]) ==> p < next_tok(s, p),
{
    lemma_tok_end_bounds(s, p);
    lemma_skip_ws_bounds(s, tok_end(s, p));
    if p < s.len() && !is_sep(s[p]) {
        assert(tok_end(s, p) == tok_end(s, p + 1));
        lemma_tok_end_bounds(s, p + 1);
    }
}

pub fn is_ws_byte(b: u8) -> (r: bool)
    ensures
        r == is_ws(b),
{
    b == 32 || b == 9
}

pub fn is_sep_byte(b: u8) -> (r: bool)
    ensures
        r == is_sep(b),
{
    b == 32 || b == 9 || b == 61
}

pub fn is_digit_byte(b: u8) -> (r: bool)
    ensures
        r == is_digit(b),
{
    48 <= b && b <= 57
}

/// The end of the token that starts at `p`.
pub fn find_tok_end(s: &[u8], p: usize) -> (e: usize)
    requires
        p <= s@.len(),
    ensures
        e == tok_end(s@, p as int),
        p <= e <= s@.len(),
        anchored(s@, e as int),
{
    proof {
        lemma_tok_end_anchored(s@, p as int);
    }
    let mut i: usize = p;
    while i < s.len() && !is_sep_byte(s[i])
        invariant
            p <= i <= s@.len(),
            tok_end(s@, i as int) == tok_end(s@, p as int),
        decreases s@.len() - i,
    {
        i = i + 1;
    }
    i
}

/// The first index at or after `p` that is not inline whitespace.
pub fn find_skip_ws(s: &[u8], p: usize) -> (e: usize)
    requires
        p <= s@.len(),
    ensures
        e == skip_ws(s@, p as int),
        p <= e <= s@.len(),
        anchored(s@, p as int) ==> anchored(s@, e as int),
{
    proof {
        if anchored(s@, p as int) {
            lemma_skip_ws_anchored(s@, p as int);
        }
    }
    let mut i: usize = p;
    while i < s.len() && is_ws_byte(s[i])
        invariant
            p <= i <= s@.len(),
            skip_ws(s@, i as int) == skip_ws(s@, p as int),
        decreases s@.len() - i,
    {
        i = i + 1;
    }
    i
}

/// Whether `n` decimal digits start at `a + i` (inside `[a, b)`).
pub fn check_digits(s: &[u8], a: usize, b: usize, i: usize, n: usize) -> (r: bool)
    requires
        a <= b <= s@.len(),
    ensures
        r == digits_at(s@.subrange(a as int, b as int), i as int, n as int),
{
    let ghost t = s@.subrange(a as int, b as int);
    if i > b - a || n > b - a - i {
        return false;
    }
    let mut k: usize = 0;
    while k < n
        invariant
            k <= n,
            a + i + n <= b <= s@.len(),
            t == s@.subrange(a as int, b as int),
            forall|j: int| i <= j < i + k ==> is_digit(#[trigger] t[j]),
        decreases n - k,
    {
        if !is_digit_byte(s[a + i + k]) {
            assert(!is_digit(t[i + k]));
            return false;
        }
        k = k + 1;
    }
    true
}

/// Whether `n` slashes start at `a + i` (inside `[a, b)`).
pub fn check_slashes(s: &[u8], a: usize, b: usize, i: usize, n: usize) -> (r: bool)
    requires
        a <= b <= s@.len(),
    ensures
        r == slashes_at(s@.subrange(a as int, b as int), i as int, n as int),
{
    let ghost t = s@.subrange(a as int, b as int);
    if i > b - a || n > b - a - i {
        return false;
    }
    let mut k: usize = 0;
    while k < n
        invariant
            k <= n,
            a + i + n <= b <= s@.len(),
            t == s@.subrange(a as int, b as int),
            forall|j: int| i <= j < i + k ==> #[trigger] t[j] == 47u8,
        decreases n - k,
    {
        if s[a + i + k] != 47u8 {
            assert(t[i + k] != 47u8);
            return false;
        }
        k = k + 1;
    }
    true
}

/// The value of `n` (at most four) digits at `a + i`, already known to be digits.
pub fn read_number(s: &[u8], a: usize, b: usize, i: usize, n: usize) -> (v: u32)
    requires
        a <= b <= s@.len(),
        n <= 4,
        digits_at(s@.subrange(a as int, b as int), i as int, n as int),
    ensures
        v == number_at(s@.subrange(a as int, b as int), i as int, n as int),
        v < 10000,
{
    let ghost t = s@.subrange(a as int, b as int);
    let mut v: u32 = 0;
    let mut k: usize = 0;
    while k < n
        invariant
            k <= n <= 4,
            a + i + n <= b <= s@.len(),
            t == s@.subrange(a as int, b as int),
            digits_at(t, i as int, n as int),
            v == number_at(t, i as int, k as int),
            v < pow10(k as nat),
        decreases n - k,
    {
        assert(is_digit(t[i + k]));
        let d = (s[a + i + k] - 48u8) as u32;
        assert(pow10((k + 1) as nat) == pow10(k as nat) * 10) by {
            reveal_with_fuel(pow10, 2);
        }
        assert(pow10(k as nat) <= 1000) by {
            reveal_with_fuel(pow10, 5);
        }
        v = v * 10 + d;
        k = k + 1;
    }
    assert(pow10(n as nat) <= 10000) by {
        reveal_with_fuel(pow10, 5);
    }
    v
}

pub open spec fn pow10(n: nat) -> int
    decreases n,
{
    if n == 0 {
        1
    } else {
        10 * pow10((n - 1) as nat)
    }
}

/// Whether the bytes `[a + i, a + i + lit.len())` equal `lit`.
pub fn check_lit(s: &[u8], a: usize, b: usize, i: usize, lit: &[u8]) -> (r: bool)
    requires
        a <= b <= s@.len(),
    ensures
        r == (i + lit@.len() <= b - a && s@.subrange(a + i, a + i + lit@.len()) == lit@),
{
    if i > b - a || lit.len() > b - a - i {
        return false;
    }
    let mut k: usize = 0;
    while k < lit.len()
        invariant
            k <= lit@.len(),
            a + i + lit@.len() <= b <= s@.len(),
            forall|j: int| 0 <= j < k ==> s@[a + i + j] == #[trigger] lit@[j],
        decreases lit@.len() - k,
    {
        if s[a + i + k] != lit[k] {
            assert(s@.subrange(a + i, a + i + lit@.len())[k as int] != lit@[k as int]);
            return false;
        }
        k = k + 1;
    }
    assert(s@.subrange(a + i, a + i + lit@.len()) =~= lit@);
    true
}

/// Whether the bytes `[a, b)` are exactly `lit`.
pub fn is_exactly(s: &[u8], a: usize, b: usize, lit: &[u8]) -> (r: bool)
    requires
        a <= b <= s@.len(),
    ensures
        r == (s@.subrange(a as int, b as int) == lit@),
{
    if b - a != lit.len() {
        return false;
    }
    check_lit(s, a, b, 0, lit)
}

/// Whether the bytes `[a, b)` end with `lit`.
pub fn ends_with(s: &[u8], a: usize, b: usize, lit: &[u8]) -> (r: bool)
    requires
        a <= b <= s@.len(),
    ensures
        r == (lit@.len() <= b - a && s@.subrange(b - lit@.len(), b as int) == lit@),
{
    if lit.len() > b - a {
        return false;
    }
    check_lit(s, a, b, b - a - lit.len(), lit)
}

/// The end of the `/`-free run that starts at `i`.
pub open spec fn segment_end(t: Seq<u8>, i: int) -> int
    decreases t.len() - i,
{
    if 0 <= i < t.len() && t[i] != 47 {
        segment_end(t, i + 1)
    } else {
        i
    }
}

/// The end of the `/`-free run of `[a, b)` that starts at index `i` of it.
pub fn find_segment_end(s: &[u8], a: usize, b: usize, i: usize) -> (e: usize)
    requires
        a <= b <= s@.len(),
        i <= b - a,
    ensures
        e == segment_end(s@.subrange(a as int, b as int), i as int),
        i <= e <= b - a,
{
    let ghost t = s@.subrange(a as int, b as int);
    let mut k: usize = i;
    while k < b - a && s[a + k] != 47
        invariant
            i <= k <= b - a,
            b <= s@.len(),
            t == s@.subrange(a as int, b as int),
            segment_end(t, k as int) == segment_end(t, i as int),
        decreases b - a - k,
    {
        k = k + 1;
    }
    k
}

} // verus!
