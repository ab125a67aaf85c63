//! URL parsing (through the `url` crate) and the key under which a URL is
//! kept: the lower-cased part of its serialization before the path.

use vstd::prelude::*;

verus! {

/// The serialization `url` gives an input it parses as an absolute URL, or
/// `None` when it refuses the input.
pub uninterp spec fn url_serialization(input: Seq<char>) -> Option<Seq<char>>;

/// The part of that serialization before the path: scheme, credentials, host
/// and port.
pub uninterp spec fn url_before_path(input: Seq<char>) -> Seq<char>;

/// What the library keeps of a parsed URL.
pub struct ParsedUrl {
    /// The whole serialization (`Url::as_str`).
    pub serialization: String,
    /// The serialization up to the path (`&url[..Position::BeforePath]`).
    pub before_path: String,
}

/// `url::Url::parse(input)`; on success, its serialization and the slice of
/// it before `Position::BeforePath`. The results are named. The slice is a
/// prefix of the serialization. `Url::check_invariants` in the crate's
/// source parses the serialization again and requires the same serialization
/// and the same path start; that is the last clause.
#[verifier::external_body]
pub(crate) fn parse_url(input: &str) -> (r: Option<ParsedUrl>)
    ensures
        r is Some <==> url_serialization(input@) is Some,
        r matches Some(u) ==> u.serialization@ == url_serialization(input@)->0
            && u.before_path@ == url_before_path(input@) && u.before_path@.is_prefix_of(
            u.serialization@,
        ),
        r matches Some(u) ==> url_serialization(u.serialization@) == Some(u.serialization@)
            && url_before_path(u.serialization@) == u.before_path@,
{
    match url::Url::parse(input) {
        Ok(url) => Some(
            ParsedUrl {
                before_path: url[..url::Position::BeforePath].to_string(),
                serialization: url.into(),
            },
        ),
        Err(_) => None,
    }
}

/// ASCII lower-casing of one character: `A`..=`Z` become `a`..=`z`, every
/// other character stays.
pub open spec fn ascii_lower(c: char) -> char {
    if 'A' <= c && c <= 'Z' {
        ((c as u32) + 32) as char
    } else {
        c
    }
}

/// ASCII lower-casing of a text.
pub open spec fn ascii_lowercase(s: Seq<char>) -> Seq<char> {
    s.map_values(|c: char| ascii_lower(c))
}

/// `str::to_ascii_lowercase`: as its documentation says, ASCII letters
/// `A`..=`Z` become `a`..=`z` and every other character is kept.
#[verifier::external_body]
pub(crate) fn to_ascii_lowercase(s: &str) -> (r: String)
    ensures
        r@ == ascii_lowercase(s@),
{
    s.to_ascii_lowercase()
}

/// Whether `input` parses as an absolute URL.
pub open spec fn url_valid(input: Seq<char>) -> bool {
    url_serialization(input) is Some
}

/// The key a URL is kept under: its part before the path, lower-cased.
pub open spec fn url_key(input: Seq<char>) -> Seq<char> {
    ascii_lowercase(url_before_path(input))
}

/// Whether `input` parses as an absolute URL.
pub fn is_valid_url(input: &str) -> (r: bool)
    ensures
        r == url_valid(input@),
{
    parse_url(input).is_some()
}

/// The key of a URL: its scheme, credentials, host and port, lower-cased.
pub fn url_key_of(input: &str) -> (r: Option<String>)
    ensures
        r is Some <==> url_valid(input@),
        r matches Some(k) ==> k@ == url_key(input@),
{
    match parse_url(input) {
        Some(u) => Some(to_ascii_lowercase(u.before_path.as_str())),
        None => None,
    }
}

/// Lower-casing twice is lower-casing once.
pub proof fn lemma_ascii_lowercase_idempotent(s: Seq<char>)
    ensures
        ascii_lowercase(ascii_lowercase(s)) == ascii_lowercase(s),
{
    assert(ascii_lowercase(ascii_lowercase(s)) =~= ascii_lowercase(s));
}

} // verus!
