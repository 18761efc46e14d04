//! What the texts that users write and read promise: numbers, requests for a port, parameters.

use vstd::prelude::*;

use crate::cli;
use crate::cli::BadSetting;
use crate::cli::OptionParserError;
use crate::cli::ParserError;
use crate::cli::SettingsView;
use crate::config::VsockConfig;
use crate::error::Error;
use crate::handshake;
use crate::text;
use crate::thread_backend;
use crate::vsock_conn;

verus! {

/// Space, tab and the ends of lines are white space, as are the spaces and line ends beyond ASCII; no
/// letter, digit or mark of ASCII is, nor anything else.
pub proof fn law_white_space(c: char)
    ensures
        text::white(c) <==> {
            ||| c == ' ' || c == '\t' || c == '\n' || c == '\u{b}' || c == '\u{c}' || c == '\r'
            ||| c == '\u{85}' || c == '\u{a0}' || c == '\u{1680}' || c == '\u{3000}'
            ||| '\u{2000}' <= c <= '\u{200a}'
            ||| c == '\u{2028}' || c == '\u{2029}' || c == '\u{202f}' || c == '\u{205f}'
        },
        c == ' ' || c == '\t' || c == '\n' || c == '\r' ==> text::white(c),
        '!' <= c <= '~' ==> !text::white(c),
{
}

/// Every character of the text is white space.
pub open spec fn all_white(s: Seq<char>) -> bool {
    forall|i: int| 0 <= i < s.len() ==> text::white(#[trigger] s[i])
}

/// No character of the text is white space, and there is one.
pub open spec fn is_word(s: Seq<char>) -> bool {
    s.len() > 0 && forall|i: int| 0 <= i < s.len() ==> !text::white(#[trigger] s[i])
}

/// A digit spells its own number, and one more digit makes a number ten times as large, and adds the
/// digit.
pub proof fn law_number_by_digits(s: Seq<char>, c: char)
    requires
        '0' <= c <= '9',
    ensures
        text::number(seq![c]) == Some((c as nat - '0' as nat) as nat),
        text::number(s) matches Some(v) ==> text::number(s.push(c)) == Some(
            (10 * v + (c as nat - '0' as nat)) as nat,
        ),
{
    let one = seq![c];
    reveal_with_fuel(text::digits_value, 2);
    assert(one.drop_last() =~= Seq::<char>::empty());
    assert(text::digit(one[0]));
    if text::number(s) is Some {
        let longer = s.push(c);
        let digits = if s[0] == '+' { s.skip(1) } else { s };
        let more = if longer[0] == '+' { longer.skip(1) } else { longer };
        assert(more =~= digits.push(c));
        assert(more.drop_last() =~= digits);
        assert(text::all_digits(digits));
        assert(text::all_digits(more));
    }
}

/// A plus sign before digits changes nothing, nor does a zero.
pub proof fn law_number_with_sign(s: Seq<char>)
    requires
        s.len() > 0,
        forall|i: int| 0 <= i < s.len() ==> '0' <= #[trigger] s[i] <= '9',
    ensures
        text::number(s) is Some,
        text::number(seq!['+'] + s) == text::number(s),
        text::number(seq!['0'] + s) == text::number(s),
{
    let signed = seq!['+'] + s;
    assert(signed.skip(1) =~= s);
    assert(text::all_digits(s));
    let zero = seq!['0'] + s;
    assert(text::all_digits(zero));
    lemma_zero_first(s);
}

/// A zero before digits adds nothing.
proof fn lemma_zero_first(s: Seq<char>)
    ensures
        text::digits_value(seq!['0'] + s) == text::digits_value(s),
    decreases s.len(),
{
    let zero = seq!['0'] + s;
    if s.len() > 0 {
        lemma_zero_first(s.drop_last());
        assert(zero.drop_last() =~= seq!['0'] + s.drop_last());
    } else {
        assert(zero.drop_last() =~= Seq::<char>::empty());
        reveal_with_fuel(text::digits_value, 2);
    }
}

/// No text is a number that holds anything but digits behind its sign, or holds no digit.
pub proof fn law_no_number(s: Seq<char>, i: int)
    ensures
        s.len() == 0 ==> text::number(s) is None,
        s == seq!['+'] ==> text::number(s) is None,
        0 <= i < s.len() && !('0' <= s[i] <= '9') && !(i == 0 && s[i] == '+') ==> text::number(s)
            is None,
{
    if 0 <= i < s.len() && !('0' <= s[i] <= '9') && !(i == 0 && s[i] == '+') {
        let digits = if s[0] == '+' { s.skip(1) } else { s };
        let at = if s[0] == '+' { i - 1 } else { i };
        assert(!text::digit(digits[at]));
    }
}

/// The decimal digits of a number spell it, with no zero too many: so no other number has them.
pub proof fn law_decimal_digits(n: nat, m: nat)
    ensures
        text::number(handshake::decimal_text(n)) == Some(n),
        n > 0 ==> handshake::decimal_text(n)[0] != '0',
        vsock_conn::decimal(n) == vsock_conn::decimal(m) ==> n == m,
    decreases n,
{
    handshake::lemma_decimal(n);
    handshake::lemma_decimal(m);
    let t = handshake::decimal_text(n);
    assert(text::digit(t[0]));
    if n >= 10 {
        law_decimal_digits(n / 10, m);
        handshake::lemma_decimal(n / 10);
        assert(t[0] == handshake::decimal_text(n / 10)[0]);
    }
    assert(text::all_digits(t));
}

/// The application is told the port that its connection goes to, in a line of its own: what stands
/// between `OK ` and the line's end spells it.
pub proof fn law_response_names_the_port(port: u32)
    ensures
        ({
            let line = vsock_conn::ok_response(port);
            let n = line.len() as int;
            let digits = line.subrange(3, n - 1);
            &&& n >= 5
            &&& line.take(3) == seq![79u8, 75, 32]
            &&& line.last() == 10
            &&& text::number(Seq::new(digits.len(), |i: int| digits[i] as char)) == Some(
                port as nat,
            )
        }),
{
    let line = vsock_conn::ok_response(port);
    let n = line.len() as int;
    let digits = line.subrange(3, n - 1);
    handshake::lemma_decimal(port as nat);
    assert(digits =~= vsock_conn::decimal(port as nat));
    assert(Seq::new(digits.len(), |i: int| digits[i] as char) =~= handshake::decimal_text(
        port as nat,
    ));
    law_decimal_digits(port as nat, port as nat);
    assert(line.take(3) =~= seq![79u8, 75, 32]);
}

/// The sockets of two ports have different paths, and each is the host socket's path, an underscore
/// and the port's digits.
pub proof fn law_ports_have_paths_of_their_own(path: Seq<char>, a: u32, b: u32)
    ensures
        ({
            let bytes = thread_backend::path_of_port(path, a);
            let n = vstd::utf8::encode_utf8(path).len() as int;
            let digits = bytes.skip(n + 1);
            &&& bytes.take(n) == vstd::utf8::encode_utf8(path)
            &&& bytes[n] == 95
            &&& text::number(Seq::new(digits.len(), |i: int| digits[i] as char)) == Some(a as nat)
        }),
        a != b ==> thread_backend::path_of_port(path, a) != thread_backend::path_of_port(path, b),
{
    let n = vstd::utf8::encode_utf8(path).len() as int;
    let one = thread_backend::path_of_port(path, a);
    let other = thread_backend::path_of_port(path, b);
    let digits = one.skip(n + 1);
    handshake::lemma_decimal(a as nat);
    law_decimal_digits(a as nat, b as nat);
    assert(digits =~= vsock_conn::decimal(a as nat));
    assert(other.skip(n + 1) =~= vsock_conn::decimal(b as nat));
    assert(Seq::new(digits.len(), |i: int| digits[i] as char) =~= handshake::decimal_text(
        a as nat,
    ));
    assert(one.take(n) =~= vstd::utf8::encode_utf8(path));
}

/// The word `connect` may be written with small and capital letters in any mixture, and no other
/// word stands for it.
pub proof fn law_spellings_of_connect(w: Seq<char>)
    ensures
        handshake::is_connect(w) <==> {
            &&& w.len() == 7
            &&& w[0] == 'c' || w[0] == 'C'
            &&& w[1] == 'o' || w[1] == 'O'
            &&& w[2] == 'n' || w[2] == 'N'
            &&& w[3] == 'n' || w[3] == 'N'
            &&& w[4] == 'e' || w[4] == 'E'
            &&& w[5] == 'c' || w[5] == 'C'
            &&& w[6] == 't' || w[6] == 'T'
        },
{
}

/// White space, and only that, is skipped to the next word.
proof fn lemma_skip_white(s: Seq<char>, from: int, to: int)
    requires
        0 <= from <= to <= s.len(),
        forall|i: int| from <= i < to ==> text::white(#[trigger] s[i]),
        to < s.len() ==> !text::white(s[to]),
    ensures
        text::skip_white(s, from) == to,
    decreases to - from,
{
    if from < to {
        lemma_skip_white(s, from + 1, to);
    }
}

/// A word is skipped to its end.
proof fn lemma_skip_word(s: Seq<char>, from: int, to: int)
    requires
        0 <= from <= to <= s.len(),
        forall|i: int| from <= i < to ==> !text::white(#[trigger] s[i]),
        to < s.len() ==> text::white(s[to]),
    ensures
        text::skip_word(s, from) == to,
    decreases to - from,
{
    if from < to {
        lemma_skip_word(s, from + 1, to);
    }
}

/// The first word of a text, behind white space, and where it is found.
proof fn lemma_first_word(space: Seq<char>, word: Seq<char>, rest: Seq<char>)
    requires
        all_white(space),
        is_word(word),
        rest.len() > 0 ==> text::white(rest[0]),
    ensures
        ({
            let s = space + word + rest;
            let end = space.len() + word.len();
            &&& text::next_word(s, 0) == Some((space.len() as int, end as int))
            &&& s.subrange(space.len() as int, end as int) == word
        }),
{
    let s = space + word + rest;
    let begin = space.len() as int;
    let end = begin + word.len();
    assert forall|i: int| 0 <= i < begin implies text::white(#[trigger] s[i]) by {
        assert(s[i] == space[i]);
    }
    assert(s[begin] == word[0]);
    lemma_skip_white(s, 0, begin);
    assert forall|i: int| begin <= i < end implies !text::white(#[trigger] s[i]) by {
        assert(s[i] == word[i - begin]);
    }
    if rest.len() > 0 {
        assert(s[end] == rest[0]);
    }
    lemma_skip_word(s, begin, end);
    assert(s.subrange(begin, end) =~= word);
}

/// The second word of a text, behind its first.
proof fn lemma_second_word(
    space: Seq<char>,
    word: Seq<char>,
    gap: Seq<char>,
    second: Seq<char>,
    rest: Seq<char>,
)
    requires
        all_white(space),
        is_word(word),
        gap.len() > 0,
        all_white(gap),
        is_word(second),
        rest.len() > 0 ==> text::white(rest[0]),
    ensures
        ({
            let s = space + word + (gap + second + rest);
            let begin = space.len() + word.len() + gap.len();
            &&& text::next_word(s, (space.len() + word.len()) as int) == Some(
                (begin as int, (begin + second.len()) as int),
            )
            &&& s.subrange(begin as int, (begin + second.len()) as int) == second
        }),
{
    let s = space + word + (gap + second + rest);
    let from = (space.len() + word.len()) as int;
    let begin = from + gap.len();
    let end = begin + second.len();
    assert forall|i: int| from <= i < begin implies text::white(#[trigger] s[i]) by {
        assert(s[i] == gap[i - from]);
    }
    assert(s[begin] == second[0]);
    lemma_skip_white(s, from, begin);
    assert forall|i: int| begin <= i < end implies !text::white(#[trigger] s[i]) by {
        assert(s[i] == second[i - begin]);
    }
    if rest.len() > 0 {
        assert(s[end] == rest[0]);
    }
    lemma_skip_word(s, begin, end);
    assert(s.subrange(begin, end) =~= second);
}

/// A request is the word `connect`, in letters of either case, and a number of a port: with any white
/// space before, between and behind them, and anything after that, it asks for exactly that port. A
/// word that is no such number is refused as one.
pub proof fn law_request_is_read(
    space: Seq<char>,
    word: Seq<char>,
    gap: Seq<char>,
    number: Seq<char>,
    rest: Seq<char>,
    r: Result<u32, Error>,
)
    requires
        all_white(space),
        handshake::is_connect(word),
        gap.len() > 0,
        all_white(gap),
        is_word(number),
        rest.len() > 0 ==> text::white(rest[0]),
        handshake::port_read(
            vstd::utf8::encode_utf8(space + word + (gap + number + rest)),
            r,
        ),
    ensures
        text::number(number) matches Some(v) && v <= u32::MAX ==> (r matches Ok(port)
            && Some(port as nat) == text::number(number)),
        !(text::number(number) matches Some(v) && v <= u32::MAX) ==> (r matches Err(
            Error::ReadStreamPort(inner),
        ) && *inner is ParseInteger),
{
    let s = space + word + (gap + number + rest);
    vstd::utf8::encode_utf8_valid_utf8(s);
    vstd::utf8::encode_utf8_decode_utf8(s);
    law_spellings_of_connect(word);
    assert((gap + number + rest)[0] == gap[0]);
    lemma_first_word(space, word, gap + number + rest);
    lemma_second_word(space, word, gap, number, rest);
}

/// A text whose first word is not `connect` is no request, whatever follows, nor is one without a
/// second word, or without any.
pub proof fn law_other_texts_are_refused(
    space: Seq<char>,
    word: Seq<char>,
    rest: Seq<char>,
    r: Result<u32, Error>,
)
    requires
        all_white(space),
        word.len() > 0 ==> is_word(word),
        rest.len() > 0 ==> text::white(rest[0]),
        !handshake::is_connect(word) || all_white(rest),
        word.len() == 0 ==> rest.len() == 0,
        handshake::port_read(vstd::utf8::encode_utf8(space + word + rest), r),
    ensures
        r == Err::<u32, Error>(Error::ReadStreamPort(Box::new(Error::InvalidPortRequest))),
{
    let s = space + word + rest;
    vstd::utf8::encode_utf8_valid_utf8(s);
    vstd::utf8::encode_utf8_decode_utf8(s);
    if word.len() == 0 {
        assert(s =~= space);
        lemma_skip_white(s, 0, s.len() as int);
    } else {
        lemma_first_word(space, word, rest);
        let end = (space.len() + word.len()) as int;
        if handshake::is_connect(word) {
            assert forall|i: int| end <= i < s.len() implies text::white(#[trigger] s[i]) by {
                assert(s[i] == rest[i - end]);
            }
            lemma_skip_white(s, end, s.len() as int);
        }
    }
}

/// Bytes that are no text are no request.
pub proof fn law_only_text_is_a_request(request: Seq<u8>, r: Result<u32, Error>)
    requires
        !vstd::utf8::valid_utf8(request),
        handshake::port_read(request, r),
    ensures
        r matches Err(e) && e is ConvertFromUtf8,
{
}

/// A request is read to at least ten bytes at once, and from there byte by byte to the end of the
/// line, or to 32 bytes: never beyond either.
pub proof fn law_request_is_read_to_its_end(read: Seq<u8>)
    ensures
        read.len() < 10 ==> read.len() + handshake::wanted(read) == 10,
        read.len() >= 10 ==> handshake::wanted(read) <= 1,
        read.len() >= 10 ==> (handshake::wanted(read) == 0 <==> read.last() == 10 || read.len()
            >= 32),
{
}

/// The name is one of the three parameters'.
pub open spec fn known(name: Seq<char>) -> bool {
    name == "guest-cid"@ || name == "uds-path"@ || name == "socket"@
}

/// What the parameter of this name is set to.
pub open spec fn value_of(settings: SettingsView, name: Seq<char>) -> Option<Seq<char>> {
    if name == "guest-cid"@ {
        settings.guest_cid
    } else if name == "uds-path"@ {
        settings.uds_path
    } else {
        settings.socket
    }
}

/// What the names of the parameters are made of.
proof fn lemma_names()
    ensures
        "guest-cid"@ != "uds-path"@,
        "guest-cid"@ != "socket"@,
        "uds-path"@ != "socket"@,
        forall|name: Seq<char>| #[trigger]
            known(name) ==> {
                &&& name.len() > 0
                &&& !text::white(name[0])
                &&& !name.contains('=')
                &&& !name.contains(',')
            },
{
    reveal_strlit("guest-cid");
    reveal_strlit("uds-path");
    reveal_strlit("socket");
    assert("guest-cid"@[0] == 'g' && "uds-path"@[0] == 'u' && "socket"@[0] == 's');
}

/// Making a setting of a known name sets that parameter to the value, whatever the value holds and
/// whatever was set before, and leaves the others as they were.
pub proof fn law_setting_sets_its_parameter(
    settings: SettingsView,
    name: Seq<char>,
    value: Seq<char>,
)
    requires
        known(name),
    ensures
        cli::set_option(settings, cli::setting(name, value)) matches Ok(after) && {
            &&& value_of(after, name) == Some(value)
            &&& forall|other: Seq<char>|
                known(other) && other != name ==> #[trigger] value_of(after, other) == value_of(
                    settings,
                    other,
                )
        },
{
    lemma_names();
    cli::lemma_setting(name, value);
}

/// A setting with no known name is refused by that name, whether or not it has a value, and one with
/// no value as it stands; whatever was set before.
pub proof fn law_bad_settings_are_refused(
    settings: SettingsView,
    name: Seq<char>,
    value: Seq<char>,
)
    requires
        !name.contains('='),
    ensures
        !known(name) ==> cli::set_option(settings, cli::setting(name, value)) == Err::<
            SettingsView,
            BadSetting,
        >(BadSetting::Unknown(name)),
        !known(name) ==> cli::set_option(settings, name) == Err::<SettingsView, BadSetting>(
            BadSetting::Unknown(name),
        ),
        known(name) ==> cli::set_option(settings, name) == Err::<SettingsView, BadSetting>(
            BadSetting::NoValue(name),
        ),
{
    cli::lemma_setting(name, value);
    cli::lemma_find(name, '=');
    assert(cli::find(name, '=') == name.len()) by {
        if cli::find(name, '=') < name.len() {
            assert(name[cli::find(name, '=')] == '=');
        }
    }
    assert(name.take(name.len() as int) =~= name);
}

/// Settings that follow each other are made one after the other: the second list finds what the first
/// has set, and is not looked at where the first is wrong.
pub proof fn law_settings_are_made_in_order(
    settings: SettingsView,
    first: Seq<char>,
    second: Seq<char>,
)
    ensures
        cli::set_options(settings, first) matches Ok(more) ==> cli::set_options(
            settings,
            cli::joined(first, second),
        ) == cli::set_options(more, second),
        cli::set_options(settings, first) matches Err(e) ==> cli::set_options(
            settings,
            cli::joined(first, second),
        ) == Err::<SettingsView, BadSetting>(e),
    decreases first.len(),
{
    cli::lemma_find(first, ',');
    let comma = cli::find(first, ',');
    let head = first.take(comma);
    assert(!head.contains(',')) by {
        assert forall|i: int| 0 <= i < head.len() implies head[i] != ',' by {
            assert(head[i] == first[i]);
        }
    }
    if comma < first.len() {
        let tail = first.skip(comma + 1);
        assert(first =~= cli::joined(head, tail));
        assert(cli::joined(first, second) =~= cli::joined(head, cli::joined(tail, second)));
        cli::lemma_joined(settings, head, tail);
        cli::lemma_joined(settings, head, cli::joined(tail, second));
        if let Ok(more) = cli::set_option(settings, head) {
            law_settings_are_made_in_order(more, tail, second);
        }
    } else {
        assert(head =~= first);
        cli::lemma_joined(settings, first, second);
    }
}

/// The last setting of a parameter counts, whatever settings come before it.
pub proof fn law_last_setting_counts(
    settings: SettingsView,
    list: Seq<char>,
    name: Seq<char>,
    value: Seq<char>,
)
    requires
        known(name),
        !value.contains(','),
        cli::set_options(settings, list) is Ok,
    ensures
        cli::set_options(settings, cli::joined(list, cli::setting(name, value))) matches Ok(after)
            && {
            &&& value_of(after, name) == Some(value)
            &&& forall|other: Seq<char>|
                known(other) && other != name ==> #[trigger] value_of(after, other) == value_of(
                    cli::set_options(settings, list)->Ok_0,
                    other,
                )
        },
{
    lemma_names();
    let last = cli::setting(name, value);
    law_settings_are_made_in_order(settings, list, last);
    cli::lemma_no_comma(name, value);
    let before = cli::set_options(settings, list)->Ok_0;
    cli::lemma_joined(before, last, last);
    law_setting_sets_its_parameter(before, name, value);
}

/// Setting the three parameters in any order, each to a text without a comma, sets each to just its
/// text. (White space at the very end of the parameters is not part of a value.)
pub proof fn law_settings_in_any_order(
    a: Seq<char>,
    u: Seq<char>,
    b: Seq<char>,
    v: Seq<char>,
    c: Seq<char>,
    w: Seq<char>,
)
    requires
        known(a),
        known(b),
        known(c),
        a != b,
        b != c,
        c != a,
        !u.contains(','),
        !v.contains(','),
        !w.contains(','),
        w.len() > 0 ==> !text::white(w.last()),
    ensures
        cli::settings_of(
            cli::joined(cli::joined(cli::setting(a, u), cli::setting(b, v)), cli::setting(c, w)),
        ) matches Ok(after) && {
            &&& value_of(after, a) == Some(u)
            &&& value_of(after, b) == Some(v)
            &&& value_of(after, c) == Some(w)
        },
{
    lemma_names();
    let none = cli::no_settings();
    let first = cli::setting(a, u);
    let two = cli::joined(first, cli::setting(b, v));
    let last = cli::setting(c, w);
    let line = cli::joined(two, last);
    cli::lemma_no_comma(a, u);
    cli::lemma_joined(none, first, first);
    law_setting_sets_its_parameter(none, a, u);
    law_last_setting_counts(none, first, b, v);
    law_last_setting_counts(none, two, c, w);
    assert(line[0] == a[0]);
    assert(line.last() == last.last());
    assert(last.last() == if w.len() > 0 { w.last() } else { '=' });
    assert(cli::trim(line) == line);
}

/// Where no parameter but these can be set, three settings of different ones set them all.
pub proof fn law_three_names(a: Seq<char>, b: Seq<char>, c: Seq<char>)
    requires
        known(a),
        known(b),
        known(c),
        a != b,
        b != c,
        c != a,
    ensures
        a == "guest-cid"@ || b == "guest-cid"@ || c == "guest-cid"@,
        a == "uds-path"@ || b == "uds-path"@ || c == "uds-path"@,
        a == "socket"@ || b == "socket"@ || c == "socket"@,
{
}

/// White space around the parameters does not matter, and white space within them is kept.
pub proof fn law_trimmed(before: Seq<char>, s: Seq<char>, behind: Seq<char>)
    requires
        all_white(before),
        all_white(behind),
        s.len() > 0 ==> !text::white(s[0]) && !text::white(s.last()),
    ensures
        cli::trim(before + s + behind) == s,
        cli::settings_of(before + s + behind) == cli::settings_of(s),
    decreases before.len() + behind.len(),
{
    let whole = before + s + behind;
    if before.len() > 0 {
        let less = before.drop_first();
        assert(whole[0] == before[0]);
        assert(whole.drop_first() =~= less + s + behind);
        assert forall|i: int| 0 <= i < less.len() implies text::white(#[trigger] less[i]) by {
            assert(less[i] == before[i + 1]);
        }
        law_trimmed(less, s, behind);
    } else if behind.len() > 0 {
        let less = behind.drop_last();
        assert forall|i: int| 0 <= i < less.len() implies text::white(#[trigger] less[i]) by {
            assert(less[i] == behind[i]);
        }
        if s.len() > 0 {
            assert(whole[0] == s[0]);
            assert(whole.last() == behind.last());
            assert(whole.drop_last() =~= before + s + less);
            law_trimmed(before, s, less);
        } else {
            assert(whole =~= behind);
            let rest = behind.drop_first();
            assert forall|i: int| 0 <= i < rest.len() implies text::white(#[trigger] rest[i]) by {
                assert(rest[i] == behind[i + 1]);
            }
            assert(text::white(behind[0]));
            assert(whole.drop_first() =~= before + s + rest);
            law_trimmed(before, s, rest);
        }
    } else {
        assert(whole =~= s);
    }
    assert(cli::trim(s) == s);
}

/// No parameters at all set nothing.
pub proof fn law_nothing_is_set(params: Seq<char>)
    requires
        all_white(params),
    ensures
        cli::settings_of(params) matches Ok(settings) && settings.guest_cid is None
            && settings.uds_path is None && settings.socket is None,
{
    let nothing = Seq::<char>::empty();
    assert(params + nothing + nothing =~= params);
    law_trimmed(params, nothing, nothing);
}

/// The configuration is what the parameters set: both paths as they stand, and the CID by its
/// number, or 3 where it is not set. It takes both paths; a CID that is no number of 64 bits is
/// refused as it stands, also where a path is missing.
pub proof fn law_configuration_is_what_was_set(
    params: Seq<char>,
    settings: SettingsView,
    r: Result<VsockConfig, ParserError>,
)
    requires
        cli::settings_of(params) == Ok::<SettingsView, BadSetting>(settings),
        cli::configured(params, r),
    ensures
        r matches Ok(config) ==> {
            &&& Some(config@.socket) == settings.socket
            &&& Some(config@.uds_path) == settings.uds_path
            &&& match settings.guest_cid {
                Some(cid) => text::number(cid) == Some(config@.guest_cid as nat),
                None => config@.guest_cid == 3,
            }
        },
        ({
            let numbered = match settings.guest_cid {
                Some(cid) => text::number(cid) matches Some(v) && v <= u64::MAX,
                None => true,
            };
            &&& r is Ok <==> numbered && settings.socket is Some && settings.uds_path is Some
            &&& !numbered ==> (r matches Err(
                ParserError::FailedConfigParse(OptionParserError::Conversion(n, v)),
            ) && n@ == "guest-cid"@ && Some(v@) == settings.guest_cid)
            &&& numbered && r is Err ==> r->Err_0 is SocketParameterMissing
        }),
{
}

/// What is wrong with a setting is told.
pub proof fn law_bad_setting_is_told(
    params: Seq<char>,
    bad: BadSetting,
    r: Result<VsockConfig, ParserError>,
)
    requires
        cli::settings_of(params) == Err::<SettingsView, BadSetting>(bad),
        cli::configured(params, r),
    ensures
        bad matches BadSetting::Unknown(name) ==> (r matches Err(
            ParserError::FailedConfigParse(OptionParserError::UnknownOption(n)),
        ) && n@ == name),
        bad matches BadSetting::NoValue(setting) ==> (r matches Err(
            ParserError::FailedConfigParse(OptionParserError::InvalidSyntax(t)),
        ) && t@ == setting),
{
}

/// The parameters in any order, with the CID written in decimal, give the configuration that they
/// name.
pub proof fn law_parameters_are_taken(
    a: Seq<char>,
    u: Seq<char>,
    b: Seq<char>,
    v: Seq<char>,
    c: Seq<char>,
    w: Seq<char>,
    cid: u64,
    r: Result<VsockConfig, ParserError>,
)
    requires
        known(a),
        known(b),
        known(c),
        a != b,
        b != c,
        c != a,
        !u.contains(','),
        !v.contains(','),
        !w.contains(','),
        w.len() > 0 ==> !text::white(w.last()),
        a == "guest-cid"@ ==> u == handshake::decimal_text(cid as nat),
        b == "guest-cid"@ ==> v == handshake::decimal_text(cid as nat),
        c == "guest-cid"@ ==> w == handshake::decimal_text(cid as nat),
        cli::configured(
            cli::joined(cli::joined(cli::setting(a, u), cli::setting(b, v)), cli::setting(c, w)),
            r,
        ),
    ensures
        r matches Ok(config) && {
            &&& config@.guest_cid == cid
            &&& a == "uds-path"@ ==> config@.uds_path == u
            &&& b == "uds-path"@ ==> config@.uds_path == v
            &&& c == "uds-path"@ ==> config@.uds_path == w
            &&& a == "socket"@ ==> config@.socket == u
            &&& b == "socket"@ ==> config@.socket == v
            &&& c == "socket"@ ==> config@.socket == w
        },
{
    let params = cli::joined(
        cli::joined(cli::setting(a, u), cli::setting(b, v)),
        cli::setting(c, w),
    );
    lemma_names();
    law_settings_in_any_order(a, u, b, v, c, w);
    law_three_names(a, b, c);
    law_decimal_digits(cid as nat, cid as nat);
    let settings = cli::settings_of(params)->Ok_0;
    law_configuration_is_what_was_set(params, settings, r);
}

} // verus!
