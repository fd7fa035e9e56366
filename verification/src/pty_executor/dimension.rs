//! A screen dimension: a fixed number of cells, or "as large as the content".

use vstd::prelude::*;
use vstd::string::*;

verus! {

/// Width or height of the terminal, as the user asked for it.
#[derive(Debug, Clone, Copy)]
pub enum Dimension {
    /// Take the largest supported size and crop to the content afterwards.
    Auto,
    /// Exactly this many cells.
    Value(u16),
}

/// ASCII lower case of `c`; other characters are left alone.
pub open spec fn ascii_lower(c: char) -> char {
    if 'A' <= c && c <= 'Z' {
        ((c as u8) + 32u8) as char
    } else {
        c
    }
}

/// `s` spells "auto" in any mix of upper and lower case.
pub open spec fn is_auto(s: Seq<char>) -> bool {
    &&& s.len() == 4
    &&& ascii_lower(s[0]) == 'a'
    &&& ascii_lower(s[1]) == 'u'
    &&& ascii_lower(s[2]) == 't'
    &&& ascii_lower(s[3]) == 'o'
}

/// `c` is one of `0` to `9`.
pub open spec fn is_digit(c: char) -> bool {
    '0' <= c && c <= '9'
}

/// Every character of `s` is a decimal digit.
pub open spec fn all_digits(s: Seq<char>) -> bool {
    forall|i: int| 0 <= i < s.len() ==> is_digit(#[trigger] s[i])
}

/// The number that the digits of `s` spell, most significant first.
pub open spec fn decimal_value(s: Seq<char>) -> nat
    decreases s.len(),
{
    if s.len() == 0 {
        0
    } else {
        decimal_value(s.drop_last()) * 10 + ((s.last() as u8) - ('0' as u8)) as nat
    }
}

/// The digits of `s` once an optional leading `+` is taken away.
pub open spec fn unsigned_digits(s: Seq<char>) -> Seq<char> {
    if s.len() > 0 && s[0] == '+' {
        s.subrange(1, s.len() as int)
    } else {
        s
    }
}

/// `s` is a decimal number that fits sixteen bits: an optional `+`, then at
/// least one digit and nothing else.
pub open spec fn is_u16_text(s: Seq<char>) -> bool {
    let digits = unsigned_digits(s);
    &&& digits.len() > 0
    &&& all_digits(digits)
    &&& decimal_value(digits) <= u16::MAX
}

/// What a dimension argument means, or `None` where it means nothing.
pub open spec fn parsed_dimension(s: Seq<char>) -> Option<Dimension> {
    if is_auto(s) {
        Some(Dimension::Auto)
    } else if is_u16_text(s) {
        Some(Dimension::Value(decimal_value(unsigned_digits(s)) as u16))
    } else {
        None
    }
}

/// The message for an argument that is no dimension.
pub open spec fn invalid_dimension_message(s: Seq<char>) -> Seq<char> {
    "Invalid dimension value: "@ + s + ". Must be 'auto' or a positive integer"@
}

/// A longer digit string spells a number at least as large as any prefix.
proof fn lemma_decimal_value_grows(s: Seq<char>, k: int)
    requires
        0 <= k <= s.len(),
    ensures
        decimal_value(s.subrange(0, k)) <= decimal_value(s),
    decreases s.len() - k,
{
    if k == s.len() {
        assert(s.subrange(0, k) =~= s);
    } else {
        lemma_decimal_value_grows(s, k + 1);
        let t = s.subrange(0, k + 1);
        assert(t.drop_last() =~= s.subrange(0, k));
    }
}

fn lower(c: char) -> (r: char)
    ensures
        r == ascii_lower(c),
{
    if 'A' <= c && c <= 'Z' {
        ((c as u8) + 32u8) as char
    } else {
        c
    }
}

fn spells_auto(s: &str) -> (r: bool)
    ensures
        r == is_auto(s@),
{
    if s.unicode_len() != 4 {
        return false;
    }
    lower(s.get_char(0)) == 'a' && lower(s.get_char(1)) == 'u' && lower(s.get_char(2)) == 't'
        && lower(s.get_char(3)) == 'o'
}

/// Reads `s` as a sixteen-bit decimal number.
fn parse_u16(s: &str) -> (r: Option<u16>)
    ensures
        r is Some <==> is_u16_text(s@),
        r is Some ==> r->0 == decimal_value(unsigned_digits(s@)),
{
    let n: usize = s.unicode_len();
    let start: usize = if n > 0 && s.get_char(0) == '+' {
        1
    } else {
        0
    };
    let ghost digits = unsigned_digits(s@);
    assert(digits =~= s@.subrange(start as int, n as int));
    if start == n {
        return None;
    }
    let mut value: u32 = 0;
    let mut i: usize = start;
    assert(digits.subrange(0, 0) =~= Seq::<char>::empty());
    while i < n
        invariant
            start <= i <= n,
            n == s@.len(),
            digits == s@.subrange(start as int, n as int),
            digits == unsigned_digits(s@),
            all_digits(digits.subrange(0, i - start)),
            value == decimal_value(digits.subrange(0, i - start)),
            value <= u16::MAX,
        decreases n - i,
    {
        let c: char = s.get_char(i);
        let ghost before = digits.subrange(0, i - start);
        let ghost after = digits.subrange(0, i - start + 1);
        assert(after.drop_last() =~= before);
        assert(digits[i - start] == c);
        assert(after.last() == c);
        if !('0' <= c && c <= '9') {
            assert(!is_digit(digits[i - start]));
            return None;
        }
        let d: u32 = ((c as u8) - ('0' as u8)) as u32;
        let next: u32 = value * 10 + d;
        assert(decimal_value(after) == next);
        if next > 65535 {
            proof {
                if all_digits(digits) {
                    lemma_decimal_value_grows(digits, i - start + 1);
                }
            }
            return None;
        }
        assert forall|j: int| 0 <= j < after.len() implies is_digit(#[trigger] after[j]) by {
            if j < before.len() {
                assert(after[j] == before[j]);
            }
        }
        value = next;
        i = i + 1;
    }
    assert(digits.subrange(0, n - start) =~= digits);
    Some(value as u16)
}

impl Dimension {
    /// Reads a dimension argument: "auto" in any case, or a decimal number
    /// that fits sixteen bits.  Anything else is refused with a message that
    /// quotes the argument.
    pub fn parse(s: &str) -> (r: Result<Dimension, String>)
        ensures
            match parsed_dimension(s@) {
                Some(d) => r == Ok::<Dimension, String>(d),
                None => r is Err && r->Err_0@ == invalid_dimension_message(s@),
            },
    {
        if spells_auto(s) {
            return Ok(Dimension::Auto);
        }
        match parse_u16(s) {
            Some(v) => Ok(Dimension::Value(v)),
            None => {
                let message = String::from_str("Invalid dimension value: ").concat(s).concat(
                    ". Must be 'auto' or a positive integer",
                );
                Err(message)
            },
        }
    }

    /// The number of cells this dimension stands for, `default` where it is
    /// left open.
    pub fn to_u16(&self, default: u16) -> (r: u16)
        ensures
            r == self.resolve(default),
    {
        match self {
            Dimension::Value(v) => *v,
            Dimension::Auto => default,
        }
    }

    /// The value of `to_u16`.
    pub open spec fn resolve(&self, default: u16) -> u16 {
        match self {
            Dimension::Value(v) => *v,
            Dimension::Auto => default,
        }
    }
}

impl core::str::FromStr for Dimension {
    type Err = String;

    /// Reads a dimension argument: "auto" in any case, or a decimal number
    /// that fits sixteen bits.  Anything else is refused with a message that
    /// quotes the argument.
    fn from_str(s: &str) -> (r: Result<Self, String>)
        ensures
            match parsed_dimension(s@) {
                Some(d) => r == Ok::<Dimension, String>(d),
                None => r is Err && r->Err_0@ == invalid_dimension_message(s@),
            },
    {
        Dimension::parse(s)
    }
}

} // verus!
