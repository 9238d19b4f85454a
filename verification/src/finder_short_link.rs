//! Rules for resolving a finder (channels) short link: which identities and
//! session cookies are sent, which replies are believed, and which links are
//! handed back.
use vstd::prelude::*;
use vstd::utf8::encode_utf8;

use crate::json::{json_as_i64, json_as_str, json_get, json_is_object, json_parsed, parse_json, JsonValue};
use crate::text::{
    chars_of, has_prefix, string_from_chars, trim, trim_chars, trim_str,
};

verus! {

broadcast use vstd::string::group_string_axioms;

/// Where short links are asked for.
pub const SHORT_LINK_API: &'static str =
    "https://channels.weixin.qq.com/cgi-bin/mmfinderassistant-bin/post/get_object_short_link";

/// The origin the request is sent from.
pub const SHORT_LINK_ORIGIN: &'static str = "https://channels.weixin.qq.com";

/// The page the request is sent from.
pub const SHORT_LINK_REFERER: &'static str = "https://channels.weixin.qq.com/platform/post/list?";

/// The longest reply body that is read.
pub const MAX_RESPONSE_BYTES: u64 = 1048576;

/// The longest cookie header that is sent.
pub const MAX_COOKIE_BYTES: usize = 32768;

/// The `scene` sent with every short-link request.
pub const SHORT_LINK_SCENE: u8 = 40;

/// Why a short link could not be resolved.
#[derive(Clone, Copy, Debug, PartialEq, Eq, Structural)]
pub enum FinderShortLinkError {
    InvalidObjectId,
    InvalidNonceId,
    SessionUnavailable,
    RequestFailed,
    ResponseInvalid,
    RemoteRejected,
    LinkMissing,
}

/// The body of a short-link request: the object to link to.
pub struct ShortLinkInput {
    pub object_id: String,
    pub object_nonce_id: String,
}

/// The stable code reported for each error.
pub open spec fn error_code(e: FinderShortLinkError) -> Seq<char> {
    match e {
        FinderShortLinkError::InvalidObjectId => "FINDER_OBJECT_ID_INVALID"@,
        FinderShortLinkError::InvalidNonceId => "FINDER_NONCE_ID_INVALID"@,
        FinderShortLinkError::SessionUnavailable => "FINDER_SESSION_UNAVAILABLE"@,
        FinderShortLinkError::RequestFailed => "FINDER_SHORT_LINK_REQUEST_FAILED"@,
        FinderShortLinkError::ResponseInvalid => "FINDER_SHORT_LINK_RESPONSE_INVALID"@,
        FinderShortLinkError::RemoteRejected => "FINDER_SHORT_LINK_REMOTE_REJECTED"@,
        FinderShortLinkError::LinkMissing => "FINDER_SHORT_LINK_MISSING"@,
    }
}

/// The HTTP status that the short-link endpoint answers an error with.
pub open spec fn error_status_spec(e: FinderShortLinkError) -> u16 {
    match e {
        FinderShortLinkError::InvalidObjectId | FinderShortLinkError::InvalidNonceId => 422,
        FinderShortLinkError::SessionUnavailable => 503,
        _ => 502,
    }
}

impl FinderShortLinkError {
    /// The stable code reported for this error.
    pub fn code(&self) -> (r: &'static str)
        ensures
            r@ == error_code(*self),
    {
        match self {
            FinderShortLinkError::InvalidObjectId => "FINDER_OBJECT_ID_INVALID",
            FinderShortLinkError::InvalidNonceId => "FINDER_NONCE_ID_INVALID",
            FinderShortLinkError::SessionUnavailable => "FINDER_SESSION_UNAVAILABLE",
            FinderShortLinkError::RequestFailed => "FINDER_SHORT_LINK_REQUEST_FAILED",
            FinderShortLinkError::ResponseInvalid => "FINDER_SHORT_LINK_RESPONSE_INVALID",
            FinderShortLinkError::RemoteRejected => "FINDER_SHORT_LINK_REMOTE_REJECTED",
            FinderShortLinkError::LinkMissing => "FINDER_SHORT_LINK_MISSING",
        }
    }
}

/// The HTTP status that the short-link endpoint answers an error with:
/// 422 for a malformed identity, 503 without a session, 502 otherwise.
pub fn error_status(e: &FinderShortLinkError) -> (r: u16)
    ensures
        r == error_status_spec(*e),
{
    match e {
        FinderShortLinkError::InvalidObjectId | FinderShortLinkError::InvalidNonceId => 422,
        FinderShortLinkError::SessionUnavailable => 503,
        _ => 502,
    }
}

// ---------------------------------------------------------------------------
// Identities and cookies.

pub open spec fn is_ascii_digit(b: u8) -> bool {
    0x30 <= b <= 0x39
}

pub open spec fn is_ascii_alphanumeric(b: u8) -> bool {
    is_ascii_digit(b) || (0x41 <= b <= 0x5A) || (0x61 <= b <= 0x7A)
}

pub open spec fn is_ascii_control(b: u8) -> bool {
    b < 0x20 || b == 0x7F
}

/// A byte of a nonce id: ASCII letters and digits, and `_ . ~ + / = -`.
pub open spec fn is_nonce_byte(b: u8) -> bool {
    is_ascii_alphanumeric(b) || b == 0x5F || b == 0x2E || b == 0x7E || b == 0x2B || b == 0x2F
        || b == 0x3D || b == 0x2D
}

/// A character of a cookie name: ASCII letters and digits, `_` and `-`.
pub open spec fn is_cookie_name_char(c: char) -> bool {
    let u = c as u32;
    (0x30 <= u <= 0x39) || (0x41 <= u <= 0x5A) || (0x61 <= u <= 0x7A) || u == 0x5F || u == 0x2D
}

/// An object id: 6 to 32 decimal digits, without a leading zero.
pub open spec fn valid_object_id_spec(s: Seq<char>) -> bool {
    let b = encode_utf8(s);
    &&& 6 <= b.len() <= 32
    &&& b[0] != 0x30
    &&& forall|i: int| 0 <= i < b.len() ==> is_ascii_digit(#[trigger] b[i])
}

/// A nonce id: 6 to 512 bytes of ASCII letters, digits and `_ . ~ + / = -`.
pub open spec fn valid_nonce_id_spec(s: Seq<char>) -> bool {
    let b = encode_utf8(s);
    &&& 6 <= b.len() <= 512
    &&& forall|i: int| 0 <= i < b.len() ==> is_nonce_byte(#[trigger] b[i])
}

/// `s` cut at every `sep` (`str::split`): always at least one part.
pub open spec fn split_parts(s: Seq<char>, sep: char) -> Seq<Seq<char>>
    decreases s.len(),
{
    if s.len() == 0 {
        seq![Seq::empty()]
    } else {
        let prev = split_parts(s.drop_last(), sep);
        if s.last() == sep {
            prev.push(Seq::empty())
        } else {
            prev.update(prev.len() - 1, prev.last().push(s.last()))
        }
    }
}

/// `k` is the first position of `c` in `s`.
pub open spec fn first_at(s: Seq<char>, c: char, k: int) -> bool {
    0 <= k < s.len() && s[k] == c && forall|j: int| 0 <= j < k ==> s[j] != c
}

/// One cookie of a header: `name=value` (cut at the first `=`) with a
/// non-empty value and a non-empty name of letters, digits, `_` and `-`.
pub open spec fn cookie_pair_ok(t: Seq<char>) -> bool {
    exists|k: int|
        #![trigger first_at(t, '=', k)]
        first_at(t, '=', k) && 0 < k && k + 1 < t.len() && forall|j: int|
            0 <= j < k ==> is_cookie_name_char(#[trigger] t[j])
}

/// A cookie header that may be sent: not empty, at most 32 KiB, free of ASCII
/// control bytes, and every `;`-separated part, trimmed, a valid cookie.
pub open spec fn valid_cookie_spec(s: Seq<char>) -> bool {
    let b = encode_utf8(s);
    let parts = split_parts(s, ';');
    &&& s.len() > 0
    &&& b.len() <= MAX_COOKIE_BYTES
    &&& forall|i: int| 0 <= i < b.len() ==> !is_ascii_control(#[trigger] b[i])
    &&& forall|k: int| 0 <= k < parts.len() ==> cookie_pair_ok(trim(#[trigger] parts[k]))
}

proof fn lemma_split_parts_len(s: Seq<char>, sep: char)
    ensures
        split_parts(s, sep).len() >= 1,
    decreases s.len(),
{
    if s.len() > 0 {
        lemma_split_parts_len(s.drop_last(), sep);
    }
}

/// An object id that may be sent: 6 to 32 digits, no leading zero.
pub fn valid_object_id(value: &str) -> (r: bool)
    ensures
        r == valid_object_id_spec(value@),
{
    let b = value.as_bytes();
    let n = b.len();
    if n < 6 || n > 32 {
        return false;
    }
    if b[0] == 0x30 {
        return false;
    }
    let mut i: usize = 0;
    while i < n
        invariant
            i <= n == b@.len(),
            b@ == encode_utf8(value@),
            forall|j: int| 0 <= j < i ==> is_ascii_digit(#[trigger] b@[j]),
        decreases n - i,
    {
        if !(0x30 <= b[i] && b[i] <= 0x39) {
            return false;
        }
        i += 1;
    }
    true
}

/// A nonce id that may be sent: 6 to 512 bytes of ASCII letters, digits and
/// `_ . ~ + / = -`.
pub fn valid_nonce_id(value: &str) -> (r: bool)
    ensures
        r == valid_nonce_id_spec(value@),
{
    let b = value.as_bytes();
    let n = b.len();
    if n < 6 || n > 512 {
        return false;
    }
    let mut i: usize = 0;
    while i < n
        invariant
            i <= n == b@.len(),
            b@ == encode_utf8(value@),
            forall|j: int| 0 <= j < i ==> is_nonce_byte(#[trigger] b@[j]),
        decreases n - i,
    {
        let x = b[i];
        let ok = (0x30 <= x && x <= 0x39) || (0x41 <= x && x <= 0x5A) || (0x61 <= x && x <= 0x7A)
            || x == 0x5F || x == 0x2E || x == 0x7E || x == 0x2B || x == 0x2F || x == 0x3D || x
            == 0x2D;
        if !ok {
            return false;
        }
        i += 1;
    }
    true
}

fn cookie_pair_valid(part: &Vec<char>) -> (r: bool)
    ensures
        r == cookie_pair_ok(trim(part@)),
{
    let t = trim_chars(part);
    let mut k: usize = 0;
    while k < t.len() && t[k] != '='
        invariant
            k <= t.len(),
            forall|j: int| 0 <= j < k ==> t@[j] != '=',
        decreases t.len() - k,
    {
        k += 1;
    }
    if k == t.len() {
        assert forall|k2: int| !first_at(t@, '=', k2) by {}
        return false;
    }
    assert(first_at(t@, '=', k as int));
    assert forall|k2: int| first_at(t@, '=', k2) implies k2 == k by {
        if k2 < k {
            assert(t@[k2] != '=');
        } else if k2 > k {
            assert(t@[k as int] != '=');
        }
    }
    if k == 0 || k + 1 >= t.len() {
        return false;
    }
    let mut j: usize = 0;
    while j < k
        invariant
            j <= k < t.len(),
            t@ == trim(part@),
            t@[k as int] == '=',
            forall|x: int| 0 <= x < k ==> t@[x] != '=',
            forall|i: int| 0 <= i < j ==> is_cookie_name_char(#[trigger] t@[i]),
        decreases k - j,
    {
        let u = t[j] as u32;
        let ok = (0x30 <= u && u <= 0x39) || (0x41 <= u && u <= 0x5A) || (0x61 <= u && u <= 0x7A)
            || u == 0x5F || u == 0x2D;
        if !ok {
            proof {
                assert(!is_cookie_name_char(t@[j as int]));
                assert forall|k2: int|
                    first_at(t@, '=', k2) && 0 < k2 && k2 + 1 < t@.len() implies !(forall|i: int|
                    0 <= i < k2 ==> is_cookie_name_char(#[trigger] t@[i])) by {
                    if k2 < k {
                        assert(t@[k2] != '=');
                    } else if k2 > k {
                        assert(t@[k as int] != '=');
                    }
                    assert(!is_cookie_name_char(t@[j as int]));
                }
            }
            return false;
        }
        j += 1;
    }
    true
}

/// A cookie header that may be sent: not empty, at most 32 KiB, free of ASCII
/// control bytes, and made of `name=value` cookies separated by `;`.
pub fn valid_cookie(value: &str) -> (r: bool)
    ensures
        r == valid_cookie_spec(value@),
{
    if value.is_empty() {
        return false;
    }
    if value.as_bytes().len() > MAX_COOKIE_BYTES {
        return false;
    }
    let b = value.as_bytes();
    let mut i: usize = 0;
    while i < b.len()
        invariant
            i <= b@.len(),
            b@ == encode_utf8(value@),
            forall|j: int| 0 <= j < i ==> !is_ascii_control(#[trigger] b@[j]),
        decreases b.len() - i,
    {
        if b[i] < 0x20 || b[i] == 0x7F {
            return false;
        }
        i += 1;
    }
    let chars = chars_of(value);
    let mut current: Vec<char> = Vec::new();
    let ghost mut done: Seq<Seq<char>> = Seq::empty();
    let mut all_ok = true;
    let mut n: usize = 0;
    assert(chars@.take(0) =~= Seq::<char>::empty());
    while n < chars.len()
        invariant
            n <= chars.len(),
            split_parts(chars@.take(n as int), ';') == done.push(current@),
            all_ok == forall|k: int| 0 <= k < done.len() ==> cookie_pair_ok(trim(#[trigger] done[k])),
        decreases chars.len() - n,
    {
        let c = chars[n];
        assert(chars@.take(n + 1).drop_last() =~= chars@.take(n as int));
        assert(chars@.take(n + 1).last() == c);
        if c == ';' {
            let ok = cookie_pair_valid(&current);
            proof {
                let old_done = done;
                done = done.push(current@);
                if all_ok && ok {
                    assert forall|k: int| 0 <= k < done.len() implies cookie_pair_ok(
                        trim(#[trigger] done[k]),
                    ) by {
                        if k < old_done.len() {
                            assert(done[k] == old_done[k]);
                        }
                    }
                } else if !ok {
                    assert(done[old_done.len() as int] == current@);
                } else {
                    let k = choose|k: int|
                        0 <= k < old_done.len() && !cookie_pair_ok(trim(#[trigger] old_done[k]));
                    assert(done[k] == old_done[k]);
                }
            }
            all_ok = all_ok && ok;
            current = Vec::new();
            assert(split_parts(chars@.take(n + 1), ';') =~= done.push(current@));
        } else {
            current.push(c);
            assert(split_parts(chars@.take(n + 1), ';') =~= done.push(current@));
        }
        n += 1;
    }
    let last_ok = cookie_pair_valid(&current);
    assert(chars@.take(chars.len() as int) =~= chars@);
    let ghost parts = done.push(current@);
    assert(parts == split_parts(value@, ';'));
    if all_ok && last_ok {
        assert forall|k: int| 0 <= k < parts.len() implies cookie_pair_ok(
            trim(#[trigger] parts[k]),
        ) by {
            if k < done.len() {
                assert(parts[k] == done[k]);
            }
        }
        true
    } else {
        proof {
            if !last_ok {
                assert(parts[done.len() as int] == current@);
            } else {
                let k = choose|k: int|
                    0 <= k < done.len() && !cookie_pair_ok(trim(#[trigger] done[k]));
                assert(parts[k] == done[k]);
            }
        }
        false
    }
}

/// Where a session may come from, in order of preference: a cookie header
/// read from a file, a cookie header from the environment, or a bare session
/// token (from a file, else from the environment).
pub struct CookieSources {
    pub cookie_file: Option<String>,
    pub cookie_env: Option<String>,
    pub session_info_file: Option<String>,
    pub session_info_env: Option<String>,
}

/// The cookie header a set of sources yields, before it is checked.
pub open spec fn cookie_candidate(src: CookieSources) -> Option<Seq<char>> {
    match (src.cookie_file, src.cookie_env) {
        (Some(c), _) => Some(c@),
        (None, Some(c)) => Some(c@),
        (None, None) => match (src.session_info_file, src.session_info_env) {
            (Some(v), _) => Some("sessionInfo="@ + trim(v@)),
            (None, Some(v)) => Some("sessionInfo="@ + trim(v@)),
            (None, None) => None,
        },
    }
}

/// The cookie header sent, or why there is none.
pub open spec fn cookie_header_spec(src: CookieSources) -> Result<Seq<char>, FinderShortLinkError> {
    match cookie_candidate(src) {
        Some(c) => if valid_cookie_spec(trim(c)) {
            Ok(trim(c))
        } else {
            Err(FinderShortLinkError::SessionUnavailable)
        },
        None => Err(FinderShortLinkError::SessionUnavailable),
    }
}

fn session_cookie(token: &String) -> (r: String)
    ensures
        r@ == "sessionInfo="@ + trim(token@),
{
    let mut v = chars_of("sessionInfo=");
    let t = trim_str(token.as_str());
    let ghost head = v@;
    let mut i: usize = 0;
    while i < t.len()
        invariant
            i <= t.len(),
            v@ == head + t@.take(i as int),
        decreases t.len() - i,
    {
        v.push(t[i]);
        assert(v@ =~= head + t@.take(i + 1));
        i += 1;
    }
    assert(t@.take(t.len() as int) =~= t@);
    string_from_chars(&v)
}

/// The cookie header to send: the first source present, trimmed, provided it
/// is a valid cookie header; `SessionUnavailable` otherwise.
pub fn cookie_header(sources: &CookieSources) -> (r: Result<String, FinderShortLinkError>)
    ensures
        match r {
            Ok(s) => cookie_header_spec(*sources) == Ok::<Seq<char>, FinderShortLinkError>(s@),
            Err(e) => cookie_header_spec(*sources) == Err::<Seq<char>, FinderShortLinkError>(e),
        },
{
    let candidate: Option<String> = match &sources.cookie_file {
        Some(c) => Some(c.clone()),
        None => match &sources.cookie_env {
            Some(c) => Some(c.clone()),
            None => match &sources.session_info_file {
                Some(v) => Some(session_cookie(v)),
                None => match &sources.session_info_env {
                    Some(v) => Some(session_cookie(v)),
                    None => None,
                },
            },
        },
    };
    match candidate {
        Some(c) => {
            let t = trim_str(c.as_str());
            let value = string_from_chars(&t);
            if valid_cookie(value.as_str()) {
                Ok(value)
            } else {
                Err(FinderShortLinkError::SessionUnavailable)
            }
        },
        None => Err(FinderShortLinkError::SessionUnavailable),
    }
}

// ---------------------------------------------------------------------------
// Outside calls.

/// A byte that `http::HeaderValue::from_str` accepts: visible ASCII, space,
/// tab, or any byte from 0x80 up.
pub open spec fn is_header_byte(b: u8) -> bool {
    (b >= 32 && b != 127) || b == 9
}

/// `reqwest::header::HeaderValue::from_str(s)` succeeds. Its source checks
/// each byte of `s` and fails on the first that is neither visible ASCII,
/// space, tab, nor 0x80 and above; the contract says exactly that.
#[verifier::external_body]
fn header_value_accepts(s: &str) -> (r: bool)
    ensures
        r == forall|i: int|
            0 <= i < encode_utf8(s@).len() ==> is_header_byte(#[trigger] encode_utf8(s@)[i]),
{
    reqwest::header::HeaderValue::from_str(s).is_ok()
}

/// The parts of a parsed URL that the link rule reads.
pub struct UrlParts {
    pub scheme: String,
    pub username: String,
    pub password: Option<String>,
    pub port: Option<u16>,
    pub host: Option<String>,
    pub path: String,
}

pub struct UrlPartsView {
    pub scheme: Seq<char>,
    pub username: Seq<char>,
    pub password: Option<Seq<char>>,
    pub port: Option<u16>,
    pub host: Option<Seq<char>>,
    pub path: Seq<char>,
}

impl View for UrlParts {
    type V = UrlPartsView;

    open spec fn view(&self) -> UrlPartsView {
        UrlPartsView {
            scheme: self.scheme@,
            username: self.username@,
            password: match self.password {
                Some(p) => Some(p@),
                None => None,
            },
            port: self.port,
            host: match self.host {
                Some(h) => Some(h@),
                None => None,
            },
            path: self.path@,
        }
    }
}

/// What `url::Url::parse` (re-exported as `reqwest::Url`) makes of a text:
/// `None` when it does not parse, else the scheme, user name, password,
/// explicit non-default port, host and path of the parsed URL.
pub uninterp spec fn parsed_url(text: Seq<char>) -> Option<UrlPartsView>;

/// `reqwest::Url::parse`, keeping of the result its `scheme()`,
/// `username()`, `password()`, `port()`, `host_str()` and `path()`. The
/// WHATWG parsing itself is not stated: the result is named `parsed_url`.
#[verifier::external_body]
fn parse_url(text: &str) -> (r: Option<UrlParts>)
    ensures
        match r {
            Some(u) => parsed_url(text@) == Some(u@),
            None => parsed_url(text@) is None,
        },
{
    let u = reqwest::Url::parse(text).ok()?;
    Some(UrlParts {
        scheme: u.scheme().to_string(),
        username: u.username().to_string(),
        password: u.password().map(str::to_string),
        port: u.port(),
        host: u.host_str().map(str::to_string),
        path: u.path().to_string(),
    })
}

/// An official short link: https, no credentials, the default port, and a
/// `/sph/` path on weixin.qq.com or the finder preview page on
/// channels.weixin.qq.com.
pub open spec fn is_official_link(u: UrlPartsView) -> bool {
    &&& u.scheme == "https"@
    &&& u.username.len() == 0
    &&& u.password is None
    &&& (u.port is None || u.port == Some(443u16))
    &&& ((u.host == Some("weixin.qq.com"@) && has_prefix(u.path, "/sph/"@)) || (u.host == Some(
        "channels.weixin.qq.com"@,
    ) && has_prefix(u.path, "/finder-preview/pages/sph"@)))
}

/// What `trusted_link` hands back: the trimmed text, when it parses to an
/// official short link.
pub open spec fn trusted_link_spec(value: Seq<char>) -> Option<Seq<char>> {
    match parsed_url(trim(value)) {
        Some(u) => if is_official_link(u) {
            Some(trim(value))
        } else {
            None
        },
        None => None,
    }
}

fn opt_str_is(s: &Option<String>, lit: &str) -> (r: bool)
    ensures
        r == (s matches Some(x) && x@ == lit@),
{
    match s {
        Some(x) => crate::text::str_eq(x.as_str(), lit),
        None => false,
    }
}

/// The parsed URL is an official short link.
pub fn official_link(u: &UrlParts) -> (r: bool)
    ensures
        r == is_official_link(u@),
{
    if !crate::text::str_eq(u.scheme.as_str(), "https") || !u.username.as_str().is_empty()
        || u.password.is_some() {
        return false;
    }
    match u.port {
        None => {},
        Some(p) => if p != 443 {
            return false;
        },
    }
    let path = chars_of(u.path.as_str());
    let sph = chars_of("/sph/");
    let preview = chars_of("/finder-preview/pages/sph");
    (opt_str_is(&u.host, "weixin.qq.com") && crate::text::chars_have_prefix(&path, &sph)) || (
    opt_str_is(&u.host, "channels.weixin.qq.com") && crate::text::chars_have_prefix(
        &path,
        &preview,
    ))
}

/// The link, trimmed, when it is an official short link.
pub fn trusted_link(value: &str) -> (r: Option<String>)
    ensures
        match r {
            Some(s) => trusted_link_spec(value@) == Some(s@),
            None => trusted_link_spec(value@) is None,
        },
{
    let t = trim_str(value);
    let trimmed = string_from_chars(&t);
    match parse_url(trimmed.as_str()) {
        Some(u) => if official_link(&u) {
            Some(trimmed)
        } else {
            None
        },
        None => None,
    }
}

// ---------------------------------------------------------------------------
// The reply.

/// The error code of a reply: `errCode`, or `errcode` when there is no
/// `errCode` member, read as an integer.
pub open spec fn reply_error_code(payload: JsonValue) -> Option<i64> {
    match json_get(payload, "errCode"@) {
        Some(v) => json_as_i64(v),
        None => match json_get(payload, "errcode"@) {
            Some(v) => json_as_i64(v),
            None => None,
        },
    }
}

/// The text of the member `name` of the reply, or else of its `data` object.
pub open spec fn reply_link_text(payload: JsonValue, name: Seq<char>) -> Option<Seq<char>> {
    let top = match json_get(payload, name) {
        Some(v) => json_as_str(v),
        None => None,
    };
    match top {
        Some(s) => Some(s),
        None => match json_get(payload, "data"@) {
            Some(d) => if json_is_object(d) {
                match json_get(d, name) {
                    Some(v) => json_as_str(v),
                    None => None,
                }
            } else {
                None
            },
            None => None,
        },
    }
}

/// The trusted link under `name`, if any.
pub open spec fn reply_link(payload: JsonValue, name: Seq<char>) -> Option<Seq<char>> {
    match reply_link_text(payload, name) {
        Some(s) => trusted_link_spec(s),
        None => None,
    }
}

/// What a reply yields: an error code that is missing or not an integer makes
/// it invalid, a non-zero one a rejection; otherwise the first trusted link
/// under `shortUrl`, `short_url` or `url`.
pub open spec fn parse_response_spec(payload: JsonValue) -> Result<Seq<char>, FinderShortLinkError> {
    match reply_error_code(payload) {
        None => Err(FinderShortLinkError::ResponseInvalid),
        Some(code) => if code != 0 {
            Err(FinderShortLinkError::RemoteRejected)
        } else {
            match reply_link(payload, "shortUrl"@) {
                Some(l) => Ok(l),
                None => match reply_link(payload, "short_url"@) {
                    Some(l) => Ok(l),
                    None => match reply_link(payload, "url"@) {
                        Some(l) => Ok(l),
                        None => Err(FinderShortLinkError::LinkMissing),
                    },
                },
            }
        },
    }
}

fn link_under(payload: &JsonValue, name: &str) -> (r: Option<String>)
    ensures
        match r {
            Some(s) => reply_link(*payload, name@) == Some(s@),
            None => reply_link(*payload, name@) is None,
        },
{
    let top: Option<&str> = match payload.get(name) {
        Some(v) => v.as_str(),
        None => None,
    };
    let text: Option<&str> = match top {
        Some(s) => Some(s),
        None => match payload.get("data") {
            Some(d) => if d.is_object() {
                match d.get(name) {
                    Some(v) => v.as_str(),
                    None => None,
                }
            } else {
                None
            },
            None => None,
        },
    };
    match text {
        Some(s) => trusted_link(s),
        None => None,
    }
}

/// The short link in a reply, or why there is none. The remote error message
/// is never passed on.
pub fn parse_response(payload: &JsonValue) -> (r: Result<String, FinderShortLinkError>)
    ensures
        match r {
            Ok(s) => parse_response_spec(*payload) == Ok::<Seq<char>, FinderShortLinkError>(s@),
            Err(e) => parse_response_spec(*payload) == Err::<Seq<char>, FinderShortLinkError>(e),
        },
{
    let code_value = match payload.get("errCode") {
        Some(v) => Some(v),
        None => payload.get("errcode"),
    };
    let error_code = match code_value {
        Some(v) => v.as_i64(),
        None => None,
    };
    match error_code {
        None => return Err(FinderShortLinkError::ResponseInvalid),
        Some(c) => if c != 0 {
            return Err(FinderShortLinkError::RemoteRejected);
        },
    }
    if let Some(link) = link_under(payload, "shortUrl") {
        return Ok(link);
    }
    if let Some(link) = link_under(payload, "short_url") {
        return Ok(link);
    }
    if let Some(link) = link_under(payload, "url") {
        return Ok(link);
    }
    Err(FinderShortLinkError::LinkMissing)
}

// ---------------------------------------------------------------------------
// The request and its answer.

/// What is posted to the short-link API: the object's export id and nonce
/// id, the fixed scene, and the session cookie header.
pub struct ShortLinkRequest {
    pub export_id: String,
    pub nonce_id: String,
    pub scene: u8,
    pub cookie: String,
}

pub open spec fn request_matches(
    r: ShortLinkRequest,
    object_id: Seq<char>,
    nonce_id: Seq<char>,
    cookie: Seq<char>,
) -> bool {
    r.export_id@ == object_id && r.nonce_id@ == nonce_id && r.scene == SHORT_LINK_SCENE
        && r.cookie@ == cookie
}

/// The identity of the object is well formed: the object id is checked
/// first, then the nonce id. Nothing else is read to decide this.
pub fn check_short_link_ids(object_id: &str, nonce_id: &str) -> (r: Result<
    (),
    FinderShortLinkError,
>)
    ensures
        r == (if !valid_object_id_spec(object_id@) {
            Err::<(), FinderShortLinkError>(FinderShortLinkError::InvalidObjectId)
        } else if !valid_nonce_id_spec(nonce_id@) {
            Err::<(), FinderShortLinkError>(FinderShortLinkError::InvalidNonceId)
        } else {
            Ok::<(), FinderShortLinkError>(())
        }),
{
    if !valid_object_id(object_id) {
        return Err(FinderShortLinkError::InvalidObjectId);
    }
    if !valid_nonce_id(nonce_id) {
        return Err(FinderShortLinkError::InvalidNonceId);
    }
    Ok(())
}

/// The request for a short link, or why none is sent: the object id is
/// checked first, then the nonce id, then the session cookie.
pub fn prepare_short_link_request(
    object_id: &str,
    nonce_id: &str,
    sources: &CookieSources,
) -> (r: Result<ShortLinkRequest, FinderShortLinkError>)
    ensures
        !valid_object_id_spec(object_id@) ==> r == Err::<ShortLinkRequest, FinderShortLinkError>(
            FinderShortLinkError::InvalidObjectId,
        ),
        valid_object_id_spec(object_id@) && !valid_nonce_id_spec(nonce_id@) ==> r == Err::<
            ShortLinkRequest,
            FinderShortLinkError,
        >(FinderShortLinkError::InvalidNonceId),
        valid_object_id_spec(object_id@) && valid_nonce_id_spec(nonce_id@) ==> match
            cookie_header_spec(*sources) {
            Ok(c) => r matches Ok(req) && request_matches(req, object_id@, nonce_id@, c),
            Err(e) => r == Err::<ShortLinkRequest, FinderShortLinkError>(e),
        },
{
    if !valid_object_id(object_id) {
        return Err(FinderShortLinkError::InvalidObjectId);
    }
    if !valid_nonce_id(nonce_id) {
        return Err(FinderShortLinkError::InvalidNonceId);
    }
    let cookie = match cookie_header(sources) {
        Ok(c) => c,
        Err(e) => return Err(e),
    };
    if !header_value_accepts(cookie.as_str()) {
        proof {
            law_valid_cookie_is_header_value(cookie@);
        }
        return Err(FinderShortLinkError::SessionUnavailable);
    }
    Ok(
        ShortLinkRequest {
            export_id: object_id.to_owned(),
            nonce_id: nonce_id.to_owned(),
            scene: SHORT_LINK_SCENE,
            cookie,
        },
    )
}

/// The reply's head is acceptable: a 2xx status and no announced body over
/// 1 MiB; otherwise the request counts as failed.
pub fn check_response_head(status: u16, content_length: Option<u64>) -> (r: Result<
    (),
    FinderShortLinkError,
>)
    ensures
        r == (if !(200 <= status <= 299) || (content_length matches Some(n) && n
            > MAX_RESPONSE_BYTES) {
            Err::<(), FinderShortLinkError>(FinderShortLinkError::RequestFailed)
        } else {
            Ok::<(), FinderShortLinkError>(())
        }),
{
    let announced = match content_length {
        Some(n) => n,
        None => 0,
    };
    if !(200 <= status && status <= 299) || announced > MAX_RESPONSE_BYTES {
        return Err(FinderShortLinkError::RequestFailed);
    }
    Ok(())
}

/// The short link in a reply body: a body over 1 MiB, or one that is not
/// JSON, is an invalid response; otherwise the parsed document decides, as
/// `parse_response` does.
pub fn read_reply(body: &[u8]) -> (r: Result<String, FinderShortLinkError>)
    ensures
        body@.len() > MAX_RESPONSE_BYTES ==> r == Err::<String, FinderShortLinkError>(
            FinderShortLinkError::ResponseInvalid,
        ),
        body@.len() <= MAX_RESPONSE_BYTES && json_parsed(body@) is None ==> r == Err::<
            String,
            FinderShortLinkError,
        >(FinderShortLinkError::ResponseInvalid),
        body@.len() <= MAX_RESPONSE_BYTES && json_parsed(body@) is Some ==> match r {
            Ok(s) => parse_response_spec(json_parsed(body@)->0) == Ok::<
                Seq<char>,
                FinderShortLinkError,
            >(s@),
            Err(e) => parse_response_spec(json_parsed(body@)->0) == Err::<
                Seq<char>,
                FinderShortLinkError,
            >(e),
        },
{
    if body.len() as u64 > MAX_RESPONSE_BYTES {
        return Err(FinderShortLinkError::ResponseInvalid);
    }
    match parse_json(body) {
        Some(p) => parse_response(&p),
        None => Err(FinderShortLinkError::ResponseInvalid),
    }
}

// ---------------------------------------------------------------------------
// Laws.

/// Every cookie header that passes `valid_cookie` is accepted as an HTTP
/// header value, so a checked session never fails at the header.
pub proof fn law_valid_cookie_is_header_value(s: Seq<char>)
    requires
        valid_cookie_spec(s),
    ensures
        forall|i: int|
            0 <= i < encode_utf8(s).len() ==> is_header_byte(#[trigger] encode_utf8(s)[i]),
{
}

/// Each error has its own code.
pub proof fn law_error_codes_distinct(a: FinderShortLinkError, b: FinderShortLinkError)
    requires
        a != b,
    ensures
        error_code(a) != error_code(b),
{
    reveal_strlit("FINDER_OBJECT_ID_INVALID");
    reveal_strlit("FINDER_NONCE_ID_INVALID");
    reveal_strlit("FINDER_SESSION_UNAVAILABLE");
    reveal_strlit("FINDER_SHORT_LINK_REQUEST_FAILED");
    reveal_strlit("FINDER_SHORT_LINK_RESPONSE_INVALID");
    reveal_strlit("FINDER_SHORT_LINK_REMOTE_REJECTED");
    reveal_strlit("FINDER_SHORT_LINK_MISSING");
    assert(error_code(a)[8] != error_code(b)[8] || error_code(a).len() != error_code(b).len()
        || error_code(a)[19] != error_code(b)[19] || error_code(a)[20] != error_code(b)[20]);
}

/// A character of an error code: an ASCII capital letter or `_`.
pub open spec fn is_code_char(c: char) -> bool {
    ('A' <= c && c <= 'Z') || c == '_'
}

/// Every error code starts with `FINDER_` and is written in capital letters
/// and underscores.
pub proof fn law_error_code_shape(e: FinderShortLinkError)
    ensures
        has_prefix(error_code(e), "FINDER_"@),
        forall|i: int| 0 <= i < error_code(e).len() ==> is_code_char(#[trigger] error_code(e)[i]),
{
    reveal_strlit("FINDER_");
    reveal_strlit("FINDER_OBJECT_ID_INVALID");
    reveal_strlit("FINDER_NONCE_ID_INVALID");
    reveal_strlit("FINDER_SESSION_UNAVAILABLE");
    reveal_strlit("FINDER_SHORT_LINK_REQUEST_FAILED");
    reveal_strlit("FINDER_SHORT_LINK_RESPONSE_INVALID");
    reveal_strlit("FINDER_SHORT_LINK_REMOTE_REJECTED");
    reveal_strlit("FINDER_SHORT_LINK_MISSING");
    let c = error_code(e);
    assert(c.take(7) =~= "FINDER_"@);
}

/// A link handed back from a reply always parses as an official short link
/// and carries no surrounding white space.
pub proof fn law_reply_link_is_official(payload: JsonValue)
    ensures
        parse_response_spec(payload) matches Ok(l) ==> {
            &&& trim(l) == l
            &&& parsed_url(l) matches Some(u) && is_official_link(u)
        },
{
    if let Ok(l) = parse_response_spec(payload) {
        let raw = if reply_link(payload, "shortUrl"@) is Some {
            reply_link_text(payload, "shortUrl"@)->0
        } else if reply_link(payload, "short_url"@) is Some {
            reply_link_text(payload, "short_url"@)->0
        } else {
            reply_link_text(payload, "url"@)->0
        };
        assert(l == trim(raw));
        crate::text::lemma_trim_idempotent(raw);
    }
}

/// A reply with a non-zero error code is a rejection, whatever else it holds;
/// its message never reaches the caller.
pub proof fn law_rejection_hides_message(payload: JsonValue)
    requires
        reply_error_code(payload) matches Some(c) && c != 0,
    ensures
        parse_response_spec(payload) == Err::<Seq<char>, FinderShortLinkError>(
            FinderShortLinkError::RemoteRejected,
        ),
{
}

} // verus!
