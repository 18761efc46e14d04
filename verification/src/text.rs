//! Words and numbers in text.

use std::num::ParseIntError;
use vstd::prelude::*;

verus! {

/// Whether a character is white space: it has the Unicode property `White_Space`.
pub open spec fn white(c: char) -> bool {
    ||| 0x9 <= c as u32 <= 0xd
    ||| c as u32 == 0x20
    ||| c as u32 == 0x85
    ||| c as u32 == 0xa0
    ||| c as u32 == 0x1680
    ||| 0x2000 <= c as u32 <= 0x200a
    ||| c as u32 == 0x2028
    ||| c as u32 == 0x2029
    ||| c as u32 == 0x202f
    ||| c as u32 == 0x205f
    ||| c as u32 == 0x3000
}

/// Whether a character is white space
pub fn is_white(c: char) -> (r: bool)
    ensures
        r == white(c),
{
    let v = c as u32;
    (0x9 <= v && v <= 0xd) || v == 0x20 || v == 0x85 || v == 0xa0 || v == 0x1680 || (0x2000 <= v
        && v <= 0x200a) || v == 0x2028 || v == 0x2029 || v == 0x202f || v == 0x205f || v == 0x3000
}

/// The first position from `from` on that is not white space, or the end of the text.
pub open spec fn skip_white(s: Seq<char>, from: int) -> int
    decreases s.len() - from,
{
    if from < s.len() && white(s[from]) {
        skip_white(s, from + 1)
    } else {
        from
    }
}

/// The first position from `from` on that is white space, or the end of the text.
pub open spec fn skip_word(s: Seq<char>, from: int) -> int
    decreases s.len() - from,
{
    if from < s.len() && !white(s[from]) {
        skip_word(s, from + 1)
    } else {
        from
    }
}

/// Where the first word from `from` on begins and ends, if there is one.
pub open spec fn next_word(s: Seq<char>, from: int) -> Option<(int, int)> {
    let begin = skip_white(s, from);
    if begin < s.len() {
        Some((begin, skip_word(s, begin)))
    } else {
        None
    }
}

/// The characters of a text
pub fn chars_of(text: &str) -> (r: Vec<char>)
    ensures
        r@ == text@,
{
    let n = text.unicode_len();
    let mut chars: Vec<char> = Vec::new();
    let mut i: usize = 0;
    while i < n
        invariant
            i <= n == text@.len(),
            chars@ == text@.take(i as int),
        decreases n - i,
    {
        chars.push(text.get_char(i));
        assert(text@.take(i + 1) =~= text@.take(i as int).push(text@[i as int]));
        i = i + 1;
    }
    assert(text@.take(n as int) =~= text@);
    chars
}

/// Where the first word from `from` on begins and ends, if there is one
pub fn find_word(chars: &Vec<char>, from: usize) -> (r: Option<(usize, usize)>)
    requires
        from <= chars@.len(),
    ensures
        match r {
            Some((begin, end)) => {
                &&& next_word(chars@, from as int) == Some((begin as int, end as int))
                &&& from <= begin < end <= chars@.len()
            },
            None => next_word(chars@, from as int) is None,
        },
{
    let mut begin: usize = from;
    while begin < chars.len() && is_white(chars[begin])
        invariant
            from <= begin <= chars@.len(),
            skip_white(chars@, begin as int) == skip_white(chars@, from as int),
        decreases chars@.len() - begin,
    {
        begin = begin + 1;
    }
    if begin == chars.len() {
        return None;
    }
    let mut end: usize = begin + 1;
    while end < chars.len() && !is_white(chars[end])
        invariant
            begin < end <= chars@.len(),
            skip_word(chars@, end as int) == skip_word(chars@, begin as int),
        decreases chars@.len() - end,
    {
        end = end + 1;
    }
    Some((begin, end))
}

/// A decimal digit.
pub open spec fn digit(c: char) -> bool {
    '0' <= c <= '9'
}

/// The number that a row of decimal digits spells.
pub open spec fn digits_value(s: Seq<char>) -> nat
    decreases s.len(),
{
    if s.len() == 0 {
        0
    } else {
        10 * digits_value(s.drop_last()) + (s.last() as nat - '0' as nat) as nat
    }
}

/// The text is a row of decimal digits.
pub open spec fn all_digits(s: Seq<char>) -> bool {
    s.len() > 0 && forall|i: int| 0 <= i < s.len() ==> digit(#[trigger] s[i])
}

/// The number that a text spells: one or more decimal digits, with an optional plus sign before
/// them.
pub open spec fn number(s: Seq<char>) -> Option<nat> {
    let digits = if s.len() > 0 && s[0] == '+' { s.skip(1) } else { s };
    if all_digits(digits) {
        Some(digits_value(digits))
    } else {
        None
    }
}

/// Calls `str::parse::<u32>`, which takes an optional plus sign followed by decimal digits only,
/// and fails on anything else and on numbers too large for the type. Nothing is said of the error
/// that it gives.
#[verifier::external_body]
pub(crate) fn parse_u32(text: &str) -> (r: Result<u32, ParseIntError>)
    ensures
        match r {
            Ok(v) => number(text@) == Some(v as nat),
            Err(_) => !(number(text@) matches Some(v) && v <= u32::MAX),
        },
{
    text.parse::<u32>()
}

/// Calls `str::parse::<u64>`, which takes an optional plus sign followed by decimal digits only,
/// and fails on anything else and on numbers too large for the type. Nothing is said of the error
/// that it gives.
#[verifier::external_body]
pub(crate) fn parse_u64(text: &str) -> (r: Result<u64, ParseIntError>)
    ensures
        match r {
            Ok(v) => number(text@) == Some(v as nat),
            Err(_) => !(number(text@) matches Some(v) && v <= u64::MAX),
        },
{
    text.parse::<u64>()
}

} // verus!
