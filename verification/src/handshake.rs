//! How a host-side application says which guest port it wants: a line `connect PORT`.

use vstd::prelude::*;

use crate::error::Error;
use crate::text;
use crate::vsock_conn;

verus! {

/// Minimum number of bytes we should be able to read
pub const MIN_READ_LEN: usize = 10;

/// Number of bytes that a request has at most
pub const MAX_READ_LEN: usize = 32;

/// Calls of `std::str::from_utf8`: it fails exactly on bytes that are not well-formed UTF-8, and
/// otherwise gives the text that the bytes encode. Nothing is said of the error that it gives.
pub assume_specification[ std::str::from_utf8 ](v: &[u8]) -> (r: Result<
    &str,
    std::str::Utf8Error,
>)
    ensures
        match r {
            Ok(s) => vstd::utf8::valid_utf8(v@) && s@ == vstd::utf8::decode_utf8(v@),
            Err(_) => !vstd::utf8::valid_utf8(v@),
        },
;

/// How many bytes are to be read after those already read: the shortest request, and more one by
/// one until the line ends or the request is as long as it may be.
pub open spec fn wanted(read: Seq<u8>) -> nat {
    if read.len() < MIN_READ_LEN {
        (MIN_READ_LEN - read.len()) as nat
    } else if read.last() != 10 && read.len() < MAX_READ_LEN {
        1
    } else {
        0
    }
}

/// How many bytes are to be read next; none once the request is complete
pub fn next_read(read: &[u8]) -> (r: usize)
    ensures
        r == wanted(read@),
        read@.len() <= MAX_READ_LEN ==> read@.len() + r <= MAX_READ_LEN,
{
    let len = read.len();
    if len < MIN_READ_LEN {
        MIN_READ_LEN - len
    } else if read[len - 1] != 10 && len < MAX_READ_LEN {
        1
    } else {
        0
    }
}

/// An ASCII letter in lower case; any other character as it is.
pub open spec fn lower(c: char) -> char {
    if 'A' <= c <= 'Z' {
        (c as u32 + 32) as char
    } else {
        c
    }
}

/// The word `connect`, in letters of either case.
pub open spec fn is_connect(w: Seq<char>) -> bool {
    &&& w.len() == 7
    &&& lower(w[0]) == 'c'
    &&& lower(w[1]) == 'o'
    &&& lower(w[2]) == 'n'
    &&& lower(w[3]) == 'n'
    &&& lower(w[4]) == 'e'
    &&& lower(w[5]) == 'c'
    &&& lower(w[6]) == 't'
}

/// The word that stands for the port in a request, if it is one: the second word, where the first
/// is `connect`. What follows does not matter.
pub open spec fn port_word(s: Seq<char>) -> Option<Seq<char>> {
    match text::next_word(s, 0) {
        Some((begin, end)) => if is_connect(s.subrange(begin, end)) {
            match text::next_word(s, end) {
                Some((begin, end)) => Some(s.subrange(begin, end)),
                None => None,
            }
        } else {
            None
        },
        None => None,
    }
}

/// The port that a request asks for, if it asks for one.
pub open spec fn requested_port(bytes: Seq<u8>) -> Option<nat> {
    if vstd::utf8::valid_utf8(bytes) {
        match port_word(vstd::utf8::decode_utf8(bytes)) {
            Some(word) => match text::number(word) {
                Some(v) => if v <= u32::MAX {
                    Some(v)
                } else {
                    None
                },
                None => None,
            },
            None => None,
        }
    } else {
        None
    }
}

/// Whether `c` is the small letter `small` in either case, where `large` is that letter's capital
fn is_letter(c: char, small: char, large: char) -> (r: bool)
    requires
        'a' <= small <= 'z',
        large as u32 + 32 == small as u32,
    ensures
        r == (lower(c) == small),
{
    c == small || c == large
}

/// Whether the word from `begin` to `end` is `connect`, in letters of either case
fn word_is_connect(chars: &Vec<char>, begin: usize, end: usize) -> (r: bool)
    requires
        begin <= end <= chars@.len(),
    ensures
        r == is_connect(chars@.subrange(begin as int, end as int)),
{
    if end - begin != 7 {
        return false;
    }
    is_letter(chars[begin], 'c', 'C') && is_letter(chars[begin + 1], 'o', 'O') && is_letter(
        chars[begin + 2],
        'n',
        'N',
    ) && is_letter(chars[begin + 3], 'n', 'N') && is_letter(chars[begin + 4], 'e', 'E')
        && is_letter(chars[begin + 5], 'c', 'C') && is_letter(chars[begin + 6], 't', 'T')
}

/// An error in what a request says.
fn bad_request(e: Error) -> (r: Error)
    ensures
        r == Error::ReadStreamPort(Box::new(e)),
{
    Error::ReadStreamPort(Box::new(e))
}

/// What comes of a request: the port that it asks for, or what is wrong with it. Nothing is said of
/// the errors of the text and of the number that are carried.
pub open spec fn port_read(request: Seq<u8>, r: Result<u32, Error>) -> bool {
    match r {
        Ok(port) => requested_port(request) == Some(port as nat),
        Err(e) => {
            &&& requested_port(request) is None
            &&& if !vstd::utf8::valid_utf8(request) {
                e is ConvertFromUtf8
            } else if port_word(vstd::utf8::decode_utf8(request)) is None {
                e == Error::ReadStreamPort(Box::new(Error::InvalidPortRequest))
            } else {
                e matches Error::ReadStreamPort(inner) && *inner is ParseInteger
            }
        },
    }
}

/// The port that a request asks for
pub fn read_local_stream_port(request: &[u8]) -> (r: Result<u32, Error>)
    ensures
        port_read(request@, r),
{
    let request_text = match std::str::from_utf8(request) {
        Ok(request_text) => request_text,
        Err(e) => return Err(Error::ConvertFromUtf8(e)),
    };
    let chars = text::chars_of(request_text);
    let (begin, end) = match text::find_word(&chars, 0) {
        Some(word) => word,
        None => return Err(bad_request(Error::InvalidPortRequest)),
    };
    if !word_is_connect(&chars, begin, end) {
        return Err(bad_request(Error::InvalidPortRequest));
    }
    let (begin, end) = match text::find_word(&chars, end) {
        Some(word) => word,
        None => return Err(bad_request(Error::InvalidPortRequest)),
    };
    match text::parse_u32(request_text.substring_char(begin, end)) {
        Ok(port) => Ok(port),
        Err(e) => Err(bad_request(Error::ParseInteger(e))),
    }
}

/// The decimal digits of a number, as text.
pub open spec fn decimal_text(n: nat) -> Seq<char> {
    Seq::new(vsock_conn::decimal(n).len(), |i: int| vsock_conn::decimal(n)[i] as char)
}

/// A request for a port, with some spelling of `connect`.
pub open spec fn request_line(word: Seq<char>, port: u32) -> Seq<char> {
    word + seq![' '] + decimal_text(port as nat) + seq!['\n']
}

/// The decimal digits of a number spell that number.
pub(crate) proof fn lemma_decimal(n: nat)
    ensures
        decimal_text(n).len() > 0,
        n >= 10 ==> decimal_text(n).len() == decimal_text(n / 10).len() + 1,
        n < 10 ==> decimal_text(n).len() == 1,
        forall|i: int|
            0 <= i < decimal_text(n).len() ==> text::digit(#[trigger] decimal_text(n)[i]),
        text::digits_value(decimal_text(n)) == n,
    decreases n,
{
    let t = decimal_text(n);
    reveal_with_fuel(text::digits_value, 2);
    assert(t.last() as nat == 48 + n % 10);
    if n >= 10 {
        let shorter = decimal_text(n / 10);
        lemma_decimal(n / 10);
        assert(t.drop_last() =~= shorter);
        assert forall|i: int| 0 <= i < t.len() implies text::digit(#[trigger] t[i]) by {
            if i < t.len() - 1 {
                assert(t[i] == shorter[i]);
            }
        }
    } else {
        assert(t.drop_last() =~= Seq::<char>::empty());
    }
}

/// A number of 32 bits has at most ten decimal digits.
proof fn lemma_decimal_len(n: nat)
    requires
        n < 10_000_000_000,
    ensures
        decimal_text(n).len() <= 10,
{
    let n1 = n / 10;
    let n2 = n1 / 10;
    let n3 = n2 / 10;
    let n4 = n3 / 10;
    let n5 = n4 / 10;
    let n6 = n5 / 10;
    let n7 = n6 / 10;
    let n8 = n7 / 10;
    let n9 = n8 / 10;
    lemma_decimal(n);
    lemma_decimal(n1);
    lemma_decimal(n2);
    lemma_decimal(n3);
    lemma_decimal(n4);
    lemma_decimal(n5);
    lemma_decimal(n6);
    lemma_decimal(n7);
    lemma_decimal(n8);
    lemma_decimal(n9);
}

/// A run of characters without white space, with white space after it, is skipped as a word.
proof fn lemma_skip_word(s: Seq<char>, from: int, to: int)
    requires
        0 <= from <= to < s.len(),
        forall|i: int| from <= i < to ==> !text::white(#[trigger] s[i]),
        text::white(s[to]),
    ensures
        text::skip_word(s, from) == to,
    decreases to - from,
{
    if from < to {
        lemma_skip_word(s, from + 1, to);
    }
}

/// What a host-side application is promised: with a line of the word `connect`, in letters of
/// either case, a space and the port, it asks for exactly that port.
pub proof fn law_connect_request(word: Seq<char>, port: u32)
    requires
        is_connect(word),
    ensures
        requested_port(vstd::utf8::encode_utf8(request_line(word, port))) == Some(port as nat),
{
    let line = request_line(word, port);
    let digits = decimal_text(port as nat);
    let end = 8 + digits.len();
    vstd::utf8::encode_utf8_valid_utf8(line);
    vstd::utf8::encode_utf8_decode_utf8(line);
    lemma_decimal(port as nat);

    assert forall|i: int| 0 <= i < 7 implies !text::white(#[trigger] line[i]) by {
        assert(line[i] == word[i]);
    }
    lemma_skip_word(line, 0, 7);
    assert(line.subrange(0, 7) =~= word);

    assert forall|i: int| 8 <= i < end implies text::digit(#[trigger] line[i]) by {
        assert(line[i] == digits[i - 8]);
    }
    lemma_skip_word(line, 8, end as int);
    assert(line.subrange(8, end as int) =~= digits);
    assert(text::skip_white(line, 8) == 8);
    assert(text::skip_white(line, 7) == 8);
    assert(text::digit(digits[0]));
}

/// Such a line is read to its end and no further.
pub proof fn law_request_length(word: Seq<char>, port: u32)
    requires
        is_connect(word),
    ensures
        ({
            let bytes = vstd::utf8::encode_utf8(request_line(word, port));
            &&& MIN_READ_LEN <= bytes.len() <= MAX_READ_LEN
            &&& wanted(bytes) == 0
            &&& forall|k: int|
                MIN_READ_LEN <= k < bytes.len() ==> wanted(#[trigger] bytes.take(k)) == 1
        }),
{
    let line = request_line(word, port);
    let digits = decimal_text(port as nat);
    lemma_decimal(port as nat);
    lemma_decimal_len(port as nat);
    assert forall|i: int| 0 <= i < line.len() implies ('\0' <= #[trigger] line[i]
        <= '\u{7f}') && (line[i] == '\n' <==> i == line.len() - 1) by {
        if i < 7 {
            assert(line[i] == word[i]);
        } else if 8 <= i < line.len() - 1 {
            assert(line[i] == digits[i - 8]);
            assert(text::digit(digits[i - 8]));
        }
    }
    vstd::utf8::is_ascii_chars_encode_utf8(line);
}

} // verus!
