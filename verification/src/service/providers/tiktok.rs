//! Links to TikTok.
use vstd::prelude::*;

use super::{lower_host, lowered_host};
use crate::module::processing::model::PROVIDER_TIKTOK;
use crate::net::ParsedUrl;
use crate::text::{chars_eq, chars_ends_with, chars_of, ends_with};

verus! {

pub const PROVIDER: &'static str = PROVIDER_TIKTOK;

/// The lowercase `host` belongs to TikTok.
pub open spec fn host_matches(host: Seq<char>) -> bool {
    host == "tiktok.com"@ || ends_with(host, ".tiktok.com"@) || host == "vm.tiktok.com"@ || host
        == "vt.tiktok.com"@
}

/// The (raw) host belongs to TikTok.
pub open spec fn spec_matches(host: Option<Seq<char>>) -> bool {
    match lower_host(host) {
        Some(host) => host_matches(host),
        None => false,
    }
}

/// Whether the URL's host belongs to TikTok.
pub fn matches(url: &ParsedUrl) -> (r: bool)
    ensures
        r == spec_matches(url.host_view()),
{
    match lowered_host(url) {
        Some(host) => {
            let apex = chars_of("tiktok.com");
            let sub = chars_of(".tiktok.com");
            let vm = chars_of("vm.tiktok.com");
            let vt = chars_of("vt.tiktok.com");
            chars_eq(host.as_slice(), apex.as_slice()) || chars_ends_with(host.as_slice(), sub.as_slice())
                || chars_eq(host.as_slice(), vm.as_slice()) || chars_eq(host.as_slice(), vt.as_slice())
        },
        None => false,
    }
}

} // verus!
