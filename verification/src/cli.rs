//! The parameters with which the backend is started: comma separated settings, such as
//! `guest-cid=4,uds-path=/tmp/vm4.vsock,socket=/tmp/vhost4.socket`.

use vstd::prelude::*;

use crate::config::ConfigView;
use crate::config::VsockConfig;
use crate::text;

verus! {

/// CID of the guest where none is given
pub const DEFAULT_GUEST_CID: u64 = 3;

/// What is wrong with a setting.
#[derive(Debug)]
pub enum OptionParserError {
    /// There is no parameter of this name
    UnknownOption(String),
    /// This setting has no value
    InvalidSyntax(String),
    /// The parameter with this name cannot have this value
    Conversion(String, String),
}

/// What is wrong with the parameters.
#[derive(Debug)]
pub enum ParserError {
    /// A setting is wrong
    FailedConfigParse(OptionParserError),
    /// The guest's CID is missing
    GuestCIDMissing,
    /// A socket's path is missing
    SocketParameterMissing,
}

/// The values that the parameters were set to.
#[verifier::ext_equal]
pub struct SettingsView {
    /// Value of `guest-cid`
    pub guest_cid: Option<Seq<char>>,
    /// Value of `uds-path`
    pub uds_path: Option<Seq<char>>,
    /// Value of `socket`
    pub socket: Option<Seq<char>>,
}

/// What is wrong with a setting, as its text sees it.
pub enum BadSetting {
    /// There is no parameter of this name
    Unknown(Seq<char>),
    /// This setting has no value
    NoValue(Seq<char>),
}

/// Where `c` first occurs, or the end of the text.
pub open spec fn find(s: Seq<char>, c: char) -> int
    decreases s.len(),
{
    if s.len() == 0 || s[0] == c {
        0
    } else {
        1 + find(s.drop_first(), c)
    }
}

/// The text without the white space around it.
pub open spec fn trim(s: Seq<char>) -> Seq<char>
    decreases s.len(),
{
    if s.len() > 0 && text::white(s[0]) {
        trim(s.drop_first())
    } else if s.len() > 0 && text::white(s.last()) {
        trim(s.drop_last())
    } else {
        s
    }
}

/// The settings after one more: the text up to the first `=` names the parameter, and the rest is
/// its value.
pub open spec fn set_option(settings: SettingsView, setting: Seq<char>) -> Result<
    SettingsView,
    BadSetting,
> {
    let at = find(setting, '=');
    let name = setting.take(at);
    let value = setting.skip(at + 1);
    if name != "guest-cid"@ && name != "uds-path"@ && name != "socket"@ {
        Err(BadSetting::Unknown(name))
    } else if at == setting.len() {
        Err(BadSetting::NoValue(setting))
    } else if name == "guest-cid"@ {
        Ok(SettingsView { guest_cid: Some(value), ..settings })
    } else if name == "uds-path"@ {
        Ok(SettingsView { uds_path: Some(value), ..settings })
    } else {
        Ok(SettingsView { socket: Some(value), ..settings })
    }
}

/// The settings after a list of more, separated by commas. The first wrong one decides.
pub open spec fn set_options(settings: SettingsView, list: Seq<char>) -> Result<
    SettingsView,
    BadSetting,
>
    decreases list.len(),
    via set_options_decreases
{
    let comma = find(list, ',');
    match set_option(settings, list.take(comma)) {
        Ok(more) => if comma < list.len() {
            set_options(more, list.skip(comma + 1))
        } else {
            Ok(more)
        },
        Err(e) => Err(e),
    }
}

#[via_fn]
proof fn set_options_decreases(settings: SettingsView, list: Seq<char>) {
    lemma_find(list, ',');
}

/// What `find` finds.
pub(crate) proof fn lemma_find(s: Seq<char>, c: char)
    ensures
        0 <= find(s, c) <= s.len(),
        find(s, c) < s.len() ==> s[find(s, c)] == c,
        forall|i: int| 0 <= i < find(s, c) ==> #[trigger] s[i] != c,
    decreases s.len(),
{
    if s.len() > 0 && s[0] != c {
        lemma_find(s.drop_first(), c);
        assert forall|i: int| 0 <= i < find(s, c) implies #[trigger] s[i] != c by {
            if i > 0 {
                assert(s[i] == s.drop_first()[i - 1]);
            }
        }
    }
}

/// `find` finds the first occurrence.
proof fn lemma_found(s: Seq<char>, c: char, at: int)
    requires
        0 <= at <= s.len(),
        at < s.len() ==> s[at] == c,
        forall|i: int| 0 <= i < at ==> #[trigger] s[i] != c,
    ensures
        find(s, c) == at,
{
    lemma_find(s, c);
}

/// No parameter is set.
pub open spec fn no_settings() -> SettingsView {
    SettingsView { guest_cid: None, uds_path: None, socket: None }
}

/// The settings that a parameter text makes.
pub open spec fn settings_of(params: Seq<char>) -> Result<SettingsView, BadSetting> {
    if trim(params).len() == 0 {
        Ok(no_settings())
    } else {
        set_options(no_settings(), trim(params))
    }
}

/// The number that the guest's CID is set to, if it is one.
pub open spec fn cid_of(settings: SettingsView) -> Option<u64> {
    match settings.guest_cid {
        Some(value) => match text::number(value) {
            Some(v) => if v <= u64::MAX { Some(v as u64) } else { None },
            None => None,
        },
        None => Some(DEFAULT_GUEST_CID),
    }
}

/// The values that the parameters were set to.
struct Settings {
    guest_cid: Option<String>,
    uds_path: Option<String>,
    socket: Option<String>,
}

/// The text of an optional string.
pub open spec fn text_of(s: Option<String>) -> Option<Seq<char>> {
    match s {
        Some(s) => Some(s@),
        None => None,
    }
}

impl Settings {
    spec fn view(&self) -> SettingsView {
        SettingsView {
            guest_cid: text_of(self.guest_cid),
            uds_path: text_of(self.uds_path),
            socket: text_of(self.socket),
        }
    }
}

/// Where `c` first occurs between `from` and `to`, or `to`
fn find_char(chars: &Vec<char>, c: char, from: usize, to: usize) -> (r: usize)
    requires
        from <= to <= chars@.len(),
    ensures
        from <= r <= to,
        r == from + find(chars@.subrange(from as int, to as int), c),
{
    let mut at: usize = from;
    while at < to && chars[at] != c
        invariant
            from <= at <= to <= chars@.len(),
            forall|i: int| from <= i < at ==> #[trigger] chars@[i] != c,
        decreases to - at,
    {
        at = at + 1;
    }
    proof {
        let s = chars@.subrange(from as int, to as int);
        assert forall|i: int| 0 <= i < at - from implies #[trigger] s[i] != c by {
            assert(s[i] == chars@[from + i]);
        }
        lemma_found(s, c, at - from);
    }
    at
}

/// Whether the text between `from` and `to` is `name`
fn is_name(chars: &Vec<char>, from: usize, to: usize, name: &str) -> (r: bool)
    requires
        from <= to <= chars@.len(),
    ensures
        r == (chars@.subrange(from as int, to as int) == name@),
{
    let ghost s = chars@.subrange(from as int, to as int);
    if to - from != name.unicode_len() {
        return false;
    }
    let mut i: usize = 0;
    while i < to - from
        invariant
            i <= to - from,
            from <= to <= chars@.len(),
            to - from == name@.len(),
            s == chars@.subrange(from as int, to as int),
            forall|k: int| 0 <= k < i ==> #[trigger] s[k] == name@[k],
        decreases to - from - i,
    {
        if chars[from + i] != name.get_char(i) {
            assert(s[i as int] != name@[i as int]);
            return false;
        }
        assert(s[i as int] == name@[i as int]);
        i = i + 1;
    }
    assert(s =~= name@);
    true
}

/// Where the text without the white space around it begins and ends
fn trim_bounds(chars: &Vec<char>) -> (r: (usize, usize))
    ensures
        r.0 <= r.1 <= chars@.len(),
        chars@.subrange(r.0 as int, r.1 as int) == trim(chars@),
{
    let mut begin: usize = 0;
    let mut end: usize = chars.len();
    assert(chars@.subrange(0, end as int) =~= chars@);
    while begin < end && text::is_white(chars[begin])
        invariant
            begin <= end == chars@.len(),
            trim(chars@.subrange(begin as int, end as int)) == trim(chars@),
        decreases end - begin,
    {
        assert(chars@.subrange(begin as int, end as int).drop_first() =~= chars@.subrange(
            begin + 1,
            end as int,
        ));
        begin = begin + 1;
    }
    while begin < end && text::is_white(chars[end - 1])
        invariant
            begin <= end <= chars@.len(),
            begin < end ==> !text::white(chars@[begin as int]),
            trim(chars@.subrange(begin as int, end as int)) == trim(chars@),
        decreases end - begin,
    {
        assert(chars@.subrange(begin as int, end as int).drop_last() =~= chars@.subrange(
            begin as int,
            end - 1,
        ));
        end = end - 1;
    }
    (begin, end)
}

/// Make one more setting, from the text between `from` and `to`
fn apply_setting(
    settings: &mut Settings,
    params: &str,
    chars: &Vec<char>,
    from: usize,
    to: usize,
) -> (r: Result<(), OptionParserError>)
    requires
        chars@ == params@,
        from <= to <= chars@.len(),
    ensures
        match set_option(old(settings)@, params@.subrange(from as int, to as int)) {
            Ok(more) => r is Ok && final(settings)@ == more,
            Err(BadSetting::Unknown(name)) => r matches Err(OptionParserError::UnknownOption(n))
                && n@ == name,
            Err(BadSetting::NoValue(setting)) => r matches Err(OptionParserError::InvalidSyntax(t))
                && t@ == setting,
        },
{
    let ghost setting = params@.subrange(from as int, to as int);
    let at = find_char(chars, '=', from, to);
    assert(chars@.subrange(from as int, at as int) =~= setting.take(at - from));
    let guest_cid = is_name(chars, from, at, "guest-cid");
    let uds_path = is_name(chars, from, at, "uds-path");
    let socket = is_name(chars, from, at, "socket");
    if !guest_cid && !uds_path && !socket {
        return Err(OptionParserError::UnknownOption(params.substring_char(from, at).to_owned()));
    }
    if at == to {
        return Err(OptionParserError::InvalidSyntax(params.substring_char(from, to).to_owned()));
    }
    let value = Some(params.substring_char(at + 1, to).to_owned());
    assert(params@.subrange(at + 1, to as int) =~= setting.skip(at - from + 1));
    if guest_cid {
        settings.guest_cid = value;
    } else if uds_path {
        settings.uds_path = value;
    } else {
        settings.socket = value;
    }
    Ok(())
}

/// What comes of the parameters: the configuration that they ask for, or what is wrong with them.
pub open spec fn configured(params: Seq<char>, r: Result<VsockConfig, ParserError>) -> bool {
    match settings_of(params) {
        Err(BadSetting::Unknown(name)) => {
            &&& r matches Err(ParserError::FailedConfigParse(OptionParserError::UnknownOption(n)))
            &&& n@ == name
        },
        Err(BadSetting::NoValue(setting)) => {
            &&& r matches Err(ParserError::FailedConfigParse(OptionParserError::InvalidSyntax(t)))
            &&& t@ == setting
        },
        Ok(settings) => match cid_of(settings) {
            None => {
                &&& r matches Err(
                    ParserError::FailedConfigParse(OptionParserError::Conversion(n, v)),
                )
                &&& n@ == "guest-cid"@
                &&& Some(v@) == settings.guest_cid
            },
            Some(guest_cid) => match (settings.socket, settings.uds_path) {
                (Some(socket), Some(uds_path)) => {
                    &&& r matches Ok(config)
                    &&& config@ == (ConfigView { guest_cid, socket, uds_path })
                },
                _ => r matches Err(e) && e is SocketParameterMissing,
            },
        },
    }
}

/// The configuration that the parameters ask for.
///
/// The paths of both sockets must be given; the guest's CID need not be.
pub fn parse_args(backend_params: &str) -> (r: Result<VsockConfig, ParserError>)
    ensures
        configured(backend_params@, r),
{
    let chars = text::chars_of(backend_params);
    let mut settings = Settings { guest_cid: None, uds_path: None, socket: None };
    let (mut from, end) = trim_bounds(&chars);
    let ghost all = trim(backend_params@);
    let mut more = from < end;
    while more
        invariant
            chars@ == backend_params@,
            from <= end <= chars@.len(),
            all == trim(backend_params@),
            more ==> all.len() > 0 && set_options(no_settings(), all) == set_options(
                settings@,
                chars@.subrange(from as int, end as int),
            ),
            !more ==> settings_of(backend_params@) == Ok::<SettingsView, BadSetting>(settings@),
        decreases end - from + if more { 1int } else { 0int },
    {
        let ghost list = chars@.subrange(from as int, end as int);
        let comma = find_char(&chars, ',', from, end);
        assert(list.take(comma - from) =~= chars@.subrange(from as int, comma as int));
        match apply_setting(&mut settings, backend_params, &chars, from, comma) {
            Ok(()) => {},
            Err(e) => return Err(ParserError::FailedConfigParse(e)),
        }
        if comma < end {
            assert(list.skip(comma - from + 1) =~= chars@.subrange(comma + 1, end as int));
            from = comma + 1;
        } else {
            more = false;
        }
    }
    let guest_cid = match settings.guest_cid {
        Some(value) => match text::parse_u64(value.as_str()) {
            Ok(guest_cid) => guest_cid,
            Err(_) => {
                return Err(
                    ParserError::FailedConfigParse(
                        OptionParserError::Conversion("guest-cid".to_owned(), value),
                    ),
                );
            },
        },
        None => DEFAULT_GUEST_CID,
    };
    let socket = match settings.socket {
        Some(socket) => socket,
        None => return Err(ParserError::SocketParameterMissing),
    };
    let uds_path = match settings.uds_path {
        Some(uds_path) => uds_path,
        None => return Err(ParserError::SocketParameterMissing),
    };
    Ok(VsockConfig::new(guest_cid, socket, uds_path))
}

/// The text that sets a parameter.
pub open spec fn setting(name: Seq<char>, value: Seq<char>) -> Seq<char> {
    name + seq!['='] + value
}

/// Two settings, or lists of them, one after the other.
pub open spec fn joined(a: Seq<char>, b: Seq<char>) -> Seq<char> {
    a + seq![','] + b
}

/// A setting falls apart into its name and its value.
pub(crate) proof fn lemma_setting(name: Seq<char>, value: Seq<char>)
    requires
        !name.contains('='),
    ensures
        find(setting(name, value), '=') == name.len(),
        setting(name, value).take(name.len() as int) == name,
        setting(name, value).skip(name.len() as int + 1) == value,
{
    let s = setting(name, value);
    assert forall|i: int| 0 <= i < name.len() implies #[trigger] s[i] != '=' by {
        assert(s[i] == name[i]);
    }
    lemma_found(s, '=', name.len() as int);
    assert(s.take(name.len() as int) =~= name);
    assert(s.skip(name.len() as int + 1) =~= value);
}

/// A list falls apart into its first setting and the rest.
pub(crate) proof fn lemma_joined(settings: SettingsView, first: Seq<char>, rest: Seq<char>)
    requires
        !first.contains(','),
    ensures
        set_options(settings, joined(first, rest)) == match set_option(settings, first) {
            Ok(more) => set_options(more, rest),
            Err(e) => Err(e),
        },
        set_options(settings, first) == set_option(settings, first),
{
    let list = joined(first, rest);
    assert forall|i: int| 0 <= i < first.len() implies #[trigger] list[i] != ',' by {
        assert(list[i] == first[i]);
    }
    lemma_found(list, ',', first.len() as int);
    lemma_found(first, ',', first.len() as int);
    assert(list.take(first.len() as int) =~= first);
    assert(list.skip(first.len() as int + 1) =~= rest);
    assert(first.take(first.len() as int) =~= first);
}

/// Setting all three parameters, each to a text without a comma, sets them to just those texts,
/// whatever else the texts hold. (White space at the very end of the parameters is not part of a
/// value.)
pub proof fn law_all_settings(guest_cid: Seq<char>, uds_path: Seq<char>, socket: Seq<char>)
    requires
        !guest_cid.contains(','),
        !uds_path.contains(','),
        !socket.contains(','),
        socket.len() > 0 ==> !text::white(socket.last()),
    ensures
        settings_of(
            joined(
                setting("guest-cid"@, guest_cid),
                joined(setting("uds-path"@, uds_path), setting("socket"@, socket)),
            ),
        ) == Ok::<SettingsView, BadSetting>(
            SettingsView {
                guest_cid: Some(guest_cid),
                uds_path: Some(uds_path),
                socket: Some(socket),
            },
        ),
{
    reveal_strlit("guest-cid");
    reveal_strlit("uds-path");
    reveal_strlit("socket");
    let s1 = setting("guest-cid"@, guest_cid);
    let s2 = setting("uds-path"@, uds_path);
    let s3 = setting("socket"@, socket);
    let line = joined(s1, joined(s2, s3));
    lemma_setting("guest-cid"@, guest_cid);
    lemma_setting("uds-path"@, uds_path);
    lemma_setting("socket"@, socket);
    lemma_no_comma("guest-cid"@, guest_cid);
    lemma_no_comma("uds-path"@, uds_path);
    lemma_no_comma("socket"@, socket);
    assert(line[0] == 'g');
    assert(line.last() == s3.last());
    assert(s3.last() == if socket.len() > 0 { socket.last() } else { '=' });
    let t0 = no_settings();
    let t1 = SettingsView { guest_cid: Some(guest_cid), ..t0 };
    let t2 = SettingsView { uds_path: Some(uds_path), ..t1 };
    assert("uds-path"@[0] != "guest-cid"@[0] && "socket"@[0] != "guest-cid"@[0] && "socket"@[0]
        != "uds-path"@[0]);
    lemma_joined(t0, s1, joined(s2, s3));
    lemma_joined(t1, s2, s3);
    lemma_joined(t2, s3, s3);
}

/// A setting holds no comma that its name and value do not hold.
pub(crate) proof fn lemma_no_comma(name: Seq<char>, value: Seq<char>)
    requires
        !name.contains(','),
        !value.contains(','),
    ensures
        !setting(name, value).contains(','),
{
    let s = setting(name, value);
    assert forall|i: int| 0 <= i < s.len() implies s[i] != ',' by {
        if i < name.len() {
            assert(s[i] == name[i]);
        } else if i > name.len() {
            assert(s[i] == value[i - name.len() - 1]);
        }
    }
}

} // verus!
