//! Small string helpers that the standard library provides.

use vstd::prelude::*;

verus! {

/// `n` spaces.
pub open spec fn spaces(n: nat) -> Seq<char> {
    Seq::new(n, |i: int| ' ')
}

/// Whether `c` is white space, as the standard library's `char::is_whitespace`
/// has it.  Only what it says of characters beyond ASCII is used.
pub uninterp spec fn is_unicode_whitespace(c: char) -> bool;

/// Whether `c` is white space.  In ASCII that is the space and the five
/// characters from tab to carriage return; beyond ASCII it is what the
/// standard library takes for white space.
pub open spec fn is_whitespace(c: char) -> bool {
    if c <= '\u{7f}' {
        c == ' ' || ('\t' <= c && c <= '\r')
    } else {
        is_unicode_whitespace(c)
    }
}

/// Every character of `t` is white space.
pub open spec fn all_whitespace(t: Seq<char>) -> bool {
    forall|i: int| 0 <= i < t.len() ==> is_whitespace(#[trigger] t[i])
}

/// `char::is_whitespace`.
#[verifier::external_body]
pub(crate) fn char_is_whitespace(c: char) -> (r: bool)
    ensures
        r == is_unicode_whitespace(c),
{
    c.is_whitespace()
}

/// Whether `c` is white space.
pub fn is_space(c: char) -> (r: bool)
    ensures
        r == is_whitespace(c),
{
    if c <= '\u{7f}' {
        c == ' ' || ('\t' <= c && c <= '\r')
    } else {
        char_is_whitespace(c)
    }
}

/// Whether `text` holds white space only.
pub fn is_blank(text: &str) -> (r: bool)
    ensures
        r == all_whitespace(text@),
{
    let n: usize = text.unicode_len();
    let mut i: usize = 0;
    while i < n
        invariant
            0 <= i <= n,
            n == text@.len(),
            forall|j: int| 0 <= j < i ==> is_whitespace(#[trigger] text@[j]),
        decreases n - i,
    {
        if !is_space(text.get_char(i)) {
            return false;
        }
        i = i + 1;
    }
    true
}

/// `char::to_string`: the string made of `c` alone.
#[verifier::external_body]
pub(crate) fn string_of_char(c: char) -> (s: String)
    ensures
        s@ == seq![c],
{
    c.to_string()
}

/// `str::repeat` on a space: a string of `n` spaces.
#[verifier::external_body]
pub(crate) fn string_of_spaces(n: usize) -> (s: String)
    requires
        n <= isize::MAX,
    ensures
        s@ == spaces(n as nat),
{
    " ".repeat(n)
}

} // verus!
