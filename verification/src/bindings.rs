//! Calls into the URL, regular expression, version, date, Base64 and JSON
//! crates, with what this library relies on of each.

use base64::prelude::BASE64_STANDARD;
use base64::Engine;
use vstd::prelude::*;
use vstd::utf8::encode_utf8;

use crate::types::SemVer;

verus! {

/// The most characters that a URL, or a value put into its query, may have.
/// No HTTP request can be made for a longer one.
pub const MAX_URL_LEN: usize = 65534;

#[verifier::external_type_specification]
#[verifier::external_body]
pub struct ExUrlParseError(url::ParseError);

#[verifier::external_type_specification]
#[verifier::external_body]
pub struct ExRegexError(regex::Error);

#[verifier::external_type_specification]
#[verifier::external_body]
pub struct ExSemverError(semver::Error);

#[verifier::external_type_specification]
#[verifier::external_body]
pub struct ExDateError(chrono::ParseError);

#[verifier::external_type_specification]
#[verifier::external_body]
pub struct ExJsonError(serde_json::Error);

/// The serialization of the absolute URL that `text` parses to, if it does.
pub uninterp spec fn parsed_url(text: Seq<char>) -> Option<Seq<char>>;

/// The serialization of the URL that `reference` denotes relative to `base`,
/// if `base` is an absolute URL and `reference` resolves against it.
pub uninterp spec fn joined_url(base: Seq<char>, reference: Seq<char>) -> Option<Seq<char>>;

/// `url::Url::parse`: the serialization of the parsed URL. It is a function of
/// the text, named `parsed_url`; an error comes back exactly where the text is
/// no absolute URL. Which error it is, is not said.
#[verifier::external_body]
pub(crate) fn parse_url(text: &str) -> (res: Result<String, url::ParseError>)
    ensures
        match res {
            Ok(url) => parsed_url(text@) == Some(url@),
            Err(_) => parsed_url(text@) is None,
        },
{
    url::Url::parse(text).map(String::from)
}

/// `url::Url::join` on the URL that `base` parses to: the serialization of the
/// resolved URL. It is a function of the two texts, named `joined_url`; an
/// error comes back exactly where there is no such URL.
#[verifier::external_body]
pub(crate) fn join_url(base: &str, reference: &str) -> (res: Result<String, url::ParseError>)
    ensures
        match res {
            Ok(url) => joined_url(base@, reference@) == Some(url@),
            Err(_) => joined_url(base@, reference@) is None,
        },
{
    url::Url::parse(base)?.join(reference).map(String::from)
}

/// The uppercase hexadecimal digit of `n`.
pub open spec fn hex_digit(n: u8) -> char {
    if n < 10 {
        ('0' as u8 + n) as char
    } else {
        ('A' as u8 + n - 10) as char
    }
}

/// One byte in `application/x-www-form-urlencoded` syntax.
pub open spec fn form_byte(b: u8) -> Seq<char> {
    if (0x30 <= b <= 0x39) || (0x41 <= b <= 0x5a) || (0x61 <= b <= 0x7a) || b == 0x2a || b == 0x2d
        || b == 0x2e || b == 0x5f {
        seq![b as char]
    } else if b == 0x20 {
        seq!['+']
    } else {
        seq!['%', hex_digit(b / 16), hex_digit(b % 16)]
    }
}

/// Bytes in `application/x-www-form-urlencoded` syntax, one after the other.
pub open spec fn form_bytes(bytes: Seq<u8>) -> Seq<char>
    decreases bytes.len(),
{
    if bytes.len() == 0 {
        Seq::empty()
    } else {
        form_bytes(bytes.drop_last()) + form_byte(bytes.last())
    }
}

/// The URL `url`, a serialization, with the pair `name=value` added behind its
/// query and before its fragment.
pub open spec fn with_query_pair(url: Seq<char>, name: Seq<char>, value: Seq<char>) -> Seq<char> {
    let end = if url.contains('#') { url.index_of_first('#').unwrap() } else { url.len() as int };
    let head = url.take(end);
    let separator: Seq<char> = if !head.contains('?') {
        seq!['?']
    } else if head.last() == '?' && head.index_of_first('?') == Some(head.len() - 1) {
        Seq::empty()
    } else {
        seq!['&']
    };
    head + separator + form_bytes(encode_utf8(name)) + seq!['='] + form_bytes(encode_utf8(value))
        + url.skip(end)
}

/// `append_pair` of `url::Url::query_pairs_mut`, on the URL that `url` parses
/// to: the serialization of the URL with the form-encoded pair at the end of
/// its query. An error comes back exactly where `url` is no absolute URL. The
/// lengths are bounded since `query_pairs_mut` panics on a URL of four
/// gigabytes.
#[verifier::external_body]
pub(crate) fn append_query_pair(url: &str, name: &str, value: &str) -> (res: Result<
    String,
    url::ParseError,
>)
    requires
        url@.len() <= MAX_URL_LEN,
        name@.len() <= MAX_URL_LEN,
        value@.len() <= MAX_URL_LEN,
    ensures
        match res {
            Ok(text) => parsed_url(url@) is Some && text@ == with_query_pair(
                parsed_url(url@).unwrap(),
                name@,
                value@,
            ),
            Err(_) => parsed_url(url@) is None,
        },
{
    let mut parsed = url::Url::parse(url)?;
    parsed.query_pairs_mut().append_pair(name, value);
    Ok(String::from(parsed))
}

/// Whether `pattern` is a regular expression.
pub uninterp spec fn regex_compiles(pattern: Seq<char>) -> bool;

/// Whether the regular expression `pattern` matches somewhere in `text`.
pub uninterp spec fn regex_matches(pattern: Seq<char>, text: Seq<char>) -> bool;

/// `text` without the matches of the regular expression `pattern`.
pub uninterp spec fn regex_removed(pattern: Seq<char>, text: Seq<char>) -> Seq<char>;

/// `regex::Regex::new`: succeeds exactly where `pattern` is a regular
/// expression, which is named `regex_compiles`.
#[verifier::external_body]
pub(crate) fn check_regex(pattern: &str) -> (res: Result<(), regex::Error>)
    ensures
        res is Ok <==> regex_compiles(pattern@),
{
    regex::Regex::new(pattern).map(|_| ())
}

/// `regex::Regex::is_match` of the compiled `pattern` on `text`: a function of
/// the two, named `regex_matches`. An error comes back exactly where `pattern`
/// does not compile.
#[verifier::external_body]
pub(crate) fn regex_is_match(pattern: &str, text: &str) -> (res: Result<bool, regex::Error>)
    ensures
        match res {
            Ok(found) => regex_compiles(pattern@) && found == regex_matches(pattern@, text@),
            Err(_) => !regex_compiles(pattern@),
        },
{
    Ok(regex::Regex::new(pattern)?.is_match(text))
}

/// `regex::Regex::replace_all` of the compiled `pattern` on `text`, with the
/// empty replacement: a function of the two, named `regex_removed`. An error
/// comes back exactly where `pattern` does not compile.
#[verifier::external_body]
pub(crate) fn regex_remove_all(pattern: &str, text: &str) -> (res: Result<String, regex::Error>)
    ensures
        match res {
            Ok(rest) => regex_compiles(pattern@) && rest@ == regex_removed(pattern@, text@),
            Err(_) => !regex_compiles(pattern@),
        },
{
    Ok(regex::Regex::new(pattern)?.replace_all(text, "").into_owned())
}

/// Major, minor and patch number, pre-release and build metadata of the
/// semantic version that `text` denotes, if it does.
pub uninterp spec fn semver_parts(text: Seq<char>) -> Option<
    (u64, u64, u64, Seq<char>, Seq<char>),
>;

/// `semver::Version::parse`: the parts of the version are a function of the
/// text, named `semver_parts`; an error comes back exactly where the text is no
/// semantic version.
#[verifier::external_body]
pub(crate) fn parse_semver(text: &str) -> (res: Result<SemVer, semver::Error>)
    ensures
        match res {
            Ok(v) => semver_parts(text@) == Some(
                (v.major, v.minor, v.patch, v.pre@, v.build@),
            ),
            Err(_) => semver_parts(text@) is None,
        },
{
    let v = semver::Version::parse(text)?;
    Ok(SemVer {
        major: v.major,
        minor: v.minor,
        patch: v.patch,
        pre: v.pre.as_str().to_owned(),
        build: v.build.as_str().to_owned(),
    })
}

/// The Unix time, in seconds, of the RFC 3339 date and time that `text`
/// denotes, if it does.
pub uninterp spec fn rfc3339_seconds(text: Seq<char>) -> Option<i64>;

/// `chrono::DateTime::parse_from_rfc3339`, then `timestamp`: the seconds are a
/// function of the text, named `rfc3339_seconds`; an error comes back exactly
/// where the text is no such date and time.
#[verifier::external_body]
pub(crate) fn parse_rfc3339(text: &str) -> (res: Result<i64, chrono::ParseError>)
    ensures
        match res {
            Ok(seconds) => rfc3339_seconds(text@) == Some(seconds),
            Err(_) => rfc3339_seconds(text@) is None,
        },
{
    chrono::DateTime::parse_from_rfc3339(text).map(|t| t.timestamp())
}

/// The character of the standard Base64 alphabet for the six-bit value `n`.
pub open spec fn base64_digit(n: int) -> char {
    if n < 26 {
        ('A' as int + n) as char
    } else if n < 52 {
        ('a' as int + n - 26) as char
    } else if n < 62 {
        ('0' as int + n - 52) as char
    } else if n == 62 {
        '+'
    } else {
        '/'
    }
}

/// The `i`-th group of six bits of `bytes`, zeros past the end.
pub open spec fn six_bits(bytes: Seq<u8>, i: int) -> int {
    let k = 3 * (i / 4);
    let byte = |j: int| if j < bytes.len() { bytes[j] as int } else { 0 };
    if i % 4 == 0 {
        byte(k) / 4
    } else if i % 4 == 1 {
        byte(k) % 4 * 16 + byte(k + 1) / 16
    } else if i % 4 == 2 {
        byte(k + 1) % 16 * 4 + byte(k + 2) / 64
    } else {
        byte(k + 2) % 64
    }
}

/// Padded standard Base64: a digit for each group of six bits that starts
/// within `bytes`, then `=` up to a multiple of four.
pub open spec fn base64_text(bytes: Seq<u8>) -> Seq<char> {
    Seq::new(
        (4 * ((bytes.len() + 2) / 3)) as nat,
        |i: int| if 6 * i < 8 * bytes.len() { base64_digit(six_bits(bytes, i)) } else { '=' },
    )
}

/// `base64::Engine::encode` of `BASE64_STANDARD`, on the UTF-8 bytes of `text`:
/// RFC 4648 Base64 with the standard alphabet and padding.
#[verifier::external_body]
pub(crate) fn base64_encode(text: &str) -> (res: String)
    ensures
        res@ == base64_text(encode_utf8(text@)),
{
    BASE64_STANDARD.encode(text)
}

/// What the JSON document `text` has under `key`, if that is a string; the
/// outer `None` where `text` is no JSON document.
pub uninterp spec fn json_string(text: Seq<u8>, key: Seq<char>) -> Option<Option<Seq<char>>>;

/// What the JSON document `text` has under `key`, if that is an unsigned
/// integer of 64 bits; the outer `None` where `text` is no JSON document.
pub uninterp spec fn json_u64(text: Seq<u8>, key: Seq<char>) -> Option<Option<u64>>;

/// `serde_json::from_slice` into a `serde_json::Value`, the value under `key`,
/// and its `as_str`: a function of the bytes and the key, named `json_string`.
/// An error comes back exactly where the bytes are no JSON document.
#[verifier::external_body]
pub(crate) fn json_string_member(text: &[u8], key: &str) -> (res: Result<
    Option<String>,
    serde_json::Error,
>)
    ensures
        match res {
            Ok(member) => json_string(text@, key@) == Some(member.deep_view()),
            Err(_) => json_string(text@, key@) is None,
        },
{
    let document: serde_json::Value = serde_json::from_slice(text)?;
    Ok(document[key].as_str().map(str::to_owned))
}

/// `serde_json::from_slice` into a `serde_json::Value`, the value under `key`,
/// and its `as_u64`: a function of the bytes and the key, named `json_u64`. An
/// error comes back exactly where the bytes are no JSON document.
#[verifier::external_body]
pub(crate) fn json_u64_member(text: &[u8], key: &str) -> (res: Result<
    Option<u64>,
    serde_json::Error,
>)
    ensures
        match res {
            Ok(member) => json_u64(text@, key@) == Some(member),
            Err(_) => json_u64(text@, key@) is None,
        },
{
    let document: serde_json::Value = serde_json::from_slice(text)?;
    Ok(document[key].as_u64())
}

/// The Unicode property `White_Space`.
pub open spec fn is_white_space(c: char) -> bool {
    let n = c as u32;
    ||| 0x9 <= n <= 0xd
    ||| n == 0x20
    ||| n == 0x85
    ||| n == 0xa0
    ||| n == 0x1680
    ||| 0x2000 <= n <= 0x200a
    ||| n == 0x2028
    ||| n == 0x2029
    ||| n == 0x202f
    ||| n == 0x205f
    ||| n == 0x3000
}

/// `text` without the white space at its start and at its end.
pub open spec fn trimmed(text: Seq<char>) -> Seq<char>
    decreases text.len(),
{
    if text.len() > 0 && is_white_space(text.first()) {
        trimmed(text.drop_first())
    } else if text.len() > 0 && is_white_space(text.last()) {
        trimmed(text.drop_last())
    } else {
        text
    }
}

/// `str::trim`: leading and trailing characters of the Unicode property
/// `White_Space` are taken away.
pub assume_specification[ str::trim ](text: &str) -> (res: &str)
    ensures
        res@ == trimmed(text@),
;

} // verus!
