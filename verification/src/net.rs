//! Calls into the URL, HTTP-header and UUID crates, and the plain values
//! that the rest of the library reads from their results.
use vstd::arithmetic::power2::pow2;
use vstd::prelude::*;

verus! {

/// Whether `reqwest::Url::parse` accepts the text.
pub uninterp spec fn spec_url_parses(text: Seq<char>) -> bool;

/// `Url::scheme` of the URL that `Url::parse` makes of the text.
pub uninterp spec fn spec_url_scheme(text: Seq<char>) -> Seq<char>;

/// `Url::host_str` of the URL that `Url::parse` makes of the text.
pub uninterp spec fn spec_url_host(text: Seq<char>) -> Option<Seq<char>>;

/// `Url::path_segments` of the URL that `Url::parse` makes of the text.
pub uninterp spec fn spec_url_path_segments(text: Seq<char>) -> Option<Seq<Seq<char>>>;

/// The serialization (`Url::to_string`) of the URL that `Url::parse` makes of
/// the text, after `Url::set_fragment(None)`.
pub uninterp spec fn spec_url_without_fragment(text: Seq<char>) -> Seq<char>;

/// The serialization of the URL parsed from `base` after
/// `query_pairs_mut().append_pair(key, value)`.
pub uninterp spec fn spec_url_with_pair(base: Seq<char>, key: Seq<char>, value: Seq<char>) -> Seq<
    char,
>;

/// What the library reads of a parsed URL, as plain values.
pub struct ParsedUrl {
    pub scheme: String,
    pub host: Option<String>,
    pub path_segments: Option<Vec<String>>,
    pub without_fragment: String,
}

impl ParsedUrl {
    /// The host, as a character sequence.
    pub open spec fn host_view(&self) -> Option<Seq<char>> {
        match self.host {
            Some(h) => Some(h@),
            None => None,
        }
    }

    /// The path segments, each as a character sequence.
    pub open spec fn segments_view(&self) -> Option<Seq<Seq<char>>> {
        match self.path_segments {
            Some(segs) => Some(segs@.map_values(|s: String| s@)),
            None => None,
        }
    }
}

/// Parses `text` with `reqwest::Url::parse` and reads its scheme, host, path
/// segments and fragment-free serialization. The contract names each of these
/// results and says nothing more of them (in particular not how the URL crate
/// normalizes the text).
#[verifier::external_body]
pub(crate) fn parse_url(text: &str) -> (r: Option<ParsedUrl>)
    ensures
        r is Some <==> spec_url_parses(text@),
        r matches Some(u) ==> u.scheme@ == spec_url_scheme(text@),
        r matches Some(u) ==> u.host_view() == spec_url_host(text@),
        r matches Some(u) ==> u.segments_view() == spec_url_path_segments(text@),
        r matches Some(u) ==> u.without_fragment@ == spec_url_without_fragment(text@),
{
    let url = reqwest::Url::parse(text).ok()?;
    let mut without_fragment = url.clone();
    without_fragment.set_fragment(None);
    Some(ParsedUrl {
        scheme: url.scheme().to_string(),
        host: url.host_str().map(|h| h.to_string()),
        path_segments: url.path_segments().map(|segs| segs.map(|s| s.to_string()).collect()),
        without_fragment: without_fragment.to_string(),
    })
}

/// Parses `base` with `reqwest::Url::parse`, appends the query pair
/// `key=value` (`query_pairs_mut().append_pair`) and serializes the URL. The
/// resulting text is named, not described.
#[verifier::external_body]
pub(crate) fn url_with_query_pair(base: &str, key: &str, value: &str) -> (r: Option<String>)
    ensures
        r is Some <==> spec_url_parses(base@),
        r matches Some(u) ==> u@ == spec_url_with_pair(base@, key@, value@),
{
    let mut url = reqwest::Url::parse(base).ok()?;
    url.query_pairs_mut().append_pair(key, value);
    Some(url.to_string())
}

/// A character that `http::HeaderValue::from_str` accepts: the function
/// accepts a byte `b` when `b >= 32 && b != 127 || b == b'\t'`, and every byte
/// of the UTF-8 encoding of a character at or above U+0080 is at least 128.
pub open spec fn header_char_ok(c: char) -> bool {
    c == '\t' || (' ' <= c && c != '\x7f')
}

/// Whether `axum::http::HeaderValue::from_str` accepts `s`.
#[verifier::external_body]
pub(crate) fn header_value_valid(s: &str) -> (r: bool)
    ensures
        r == (forall|i: int| 0 <= i < s@.len() ==> header_char_ok(#[trigger] s@[i])),
{
    axum::http::HeaderValue::from_str(s).is_ok()
}

/// The lowercase hexadecimal digit for `d < 16`.
pub open spec fn hex_digit(d: nat) -> char {
    if d < 10 {
        ((d + 48) as u32) as char
    } else {
        ((d + 87) as u32) as char
    }
}

/// Hex digit number `k` (0 is the most significant) of a 128-bit value.
pub open spec fn nibble(v: u128, k: int) -> nat {
    ((v as nat) / pow2((4 * (31 - k)) as nat)) % 16
}

/// How many hyphens stand before position `i` of the hyphenated form.
pub open spec fn hyphens_before(i: int) -> int {
    if i < 8 {
        0
    } else if i < 13 {
        1
    } else if i < 18 {
        2
    } else if i < 23 {
        3
    } else {
        4
    }
}

/// The hyphenated lowercase form `xxxxxxxx-xxxx-xxxx-xxxx-xxxxxxxxxxxx` of a
/// UUID given as its big-endian 128-bit value.
pub open spec fn uuid_text(v: u128) -> Seq<char> {
    Seq::new(
        36,
        |i: int|
            if i == 8 || i == 13 || i == 18 || i == 23 {
                '-'
            } else {
                hex_digit(nibble(v, i - hyphens_before(i)))
            },
    )
}

/// The text of `uuid::Uuid::from_u128(id)`: its `Display` is the hyphenated
/// lowercase form of the big-endian bytes.
#[verifier::external_body]
pub(crate) fn uuid_string(id: u128) -> (r: String)
    ensures
        r@ == uuid_text(id),
{
    uuid::Uuid::from_u128(id).to_string()
}

} // verus!
