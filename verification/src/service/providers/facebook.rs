//! Links to facebook.
use vstd::prelude::*;

use super::{host_is_or_under, lower_host, lowered_host, matches_host};
use crate::module::processing::model::PROVIDER_FACEBOOK;
use crate::net::ParsedUrl;

verus! {

pub const PROVIDER: &'static str = PROVIDER_FACEBOOK;

/// The lowercase `host` belongs to this provider: it is one of its domains
/// (facebook.com, fb.watch) or a subdomain of one.
pub open spec fn host_matches(host: Seq<char>) -> bool {
    host_is_or_under(host, "facebook.com"@) || host_is_or_under(host, "fb.watch"@)
}

/// The (raw) host belongs to this provider.
pub open spec fn spec_matches(host: Option<Seq<char>>) -> bool {
    match lower_host(host) {
        Some(host) => host_matches(host),
        None => false,
    }
}

/// Whether the URL's host belongs to this provider.
pub fn matches(url: &ParsedUrl) -> (r: bool)
    ensures
        r == spec_matches(url.host_view()),
{
    match lowered_host(url) {
        Some(host) => matches_host(host.as_slice(), "facebook.com") || matches_host(host.as_slice(), "fb.watch"),
        None => false,
    }
}

} // verus!
