//! Strings made from ASCII bytes of the input.
use vstd::prelude::*;

verus! {

/// The characters that the ASCII bytes `t` stand for.
pub open spec fn ascii_chars(t: Seq<u8>) -> Seq<char> {
    t.map_values(|b: u8| b as char)
}

/// Relies on `String::push`: appends the given char to the end of the string.
#[verifier::external_body]
pub(crate) fn push_char(s: &mut String, c: char)
    ensures
        final(s)@ == old(s)@.push(c),
{
    s.push(c)
}

/// Relies on `String::push_str`: appends the given string slice to the end of the string.
#[verifier::external_body]
pub(crate) fn push_text(s: &mut String, t: &str)
    ensures
        final(s)@ == old(s)@ + t@,
{
    s.push_str(t)
}

/// A string of the bytes `[a, b)` of `s`, each taken as a character.
pub fn ascii_string(s: &[u8], a: usize, b: usize) -> (r: String)
    requires
        a <= b <= s@.len(),
    ensures
        r@ == ascii_chars(s@.subrange(a as int, b as int)),
{
    let mut r = String::new();
    let mut i: usize = a;
    while i < b
        invariant
            a <= i <= b <= s@.len(),
            r@ == ascii_chars(s@.subrange(a as int, i as int)),
        decreases b - i,
    {
        push_char(&mut r, s[i] as char);
        assert(ascii_chars(s@.subrange(a as int, i + 1)) =~= ascii_chars(s@.subrange(a as int, i as int)).push(s@[i as int] as char));
        i = i + 1;
    }
    r
}

} // verus!
