//! Filesystem paths, held as text, and the std functions that read them.
use vstd::prelude::*;
use vstd::utf8::{decode_utf8, valid_utf8};

verus! {

/// `std::path::Path::file_name` of the path, as text.
pub uninterp spec fn spec_path_file_name(path: Seq<char>) -> Option<Seq<char>>;

/// `std::path::Path::starts_with(base)`: `base` is a prefix of the path,
/// component by component.
pub uninterp spec fn spec_path_starts_with(path: Seq<char>, base: Seq<char>) -> bool;

/// The number of components of the path (`Path::components().count()`).
pub uninterp spec fn spec_path_component_count(path: Seq<char>) -> nat;

/// `std::path::Path::join(base, part)`, as text.
pub uninterp spec fn spec_path_join(base: Seq<char>, part: Seq<char>) -> Seq<char>;

/// `String::from_utf8_lossy` of the bytes.
pub uninterp spec fn spec_utf8_lossy(bytes: Seq<u8>) -> Seq<char>;

/// The final component of `path` (`Path::file_name`), as text. A path is
/// given as text, so the component is valid text too. The contract names the
/// result; it does not state std's component rules.
#[verifier::external_body]
pub(crate) fn path_file_name(path: &str) -> (r: Option<String>)
    ensures
        match spec_path_file_name(path@) {
            Some(name) => r matches Some(s) && s@ == name,
            None => r is None,
        },
{
    std::path::Path::new(path).file_name().and_then(|name| name.to_str()).map(|name| name.to_string())
}

/// Whether `path` starts with `base`, component by component
/// (`Path::starts_with`). The result is named, not described.
#[verifier::external_body]
pub(crate) fn path_starts_with(path: &str, base: &str) -> (r: bool)
    ensures
        r == spec_path_starts_with(path@, base@),
{
    std::path::Path::new(path).starts_with(std::path::Path::new(base))
}

/// The number of components of `path` (`Path::components().count()`). The
/// result is named, not described.
#[verifier::external_body]
pub(crate) fn path_component_count(path: &str) -> (r: usize)
    ensures
        r as nat == spec_path_component_count(path@),
{
    std::path::Path::new(path).components().count()
}

/// `base` joined with `part` (`Path::join`), as text. Both are text, so the
/// joined path is too and reading it back as text loses nothing. The result is
/// named; std's joining rules (a `part` that is absolute replaces `base`) are
/// not stated.
#[verifier::external_body]
pub(crate) fn path_join(base: &str, part: &str) -> (r: String)
    ensures
        r@ == spec_path_join(base@, part@),
{
    std::path::Path::new(base).join(part).to_string_lossy().into_owned()
}

/// The text of `bytes` with each invalid UTF-8 sequence replaced by U+FFFD
/// (`String::from_utf8_lossy`). std documents that valid UTF-8 comes back as
/// the string it encodes; that much is stated, the rest is named.
#[verifier::external_body]
pub(crate) fn utf8_lossy(bytes: &[u8]) -> (r: String)
    ensures
        r@ == spec_utf8_lossy(bytes@),
        valid_utf8(bytes@) ==> r@ == decode_utf8(bytes@),
{
    String::from_utf8_lossy(bytes).into_owned()
}

} // verus!
