//! Links to twitter.
use vstd::prelude::*;

use super::{host_is_or_under, lower_host, lowered_host, matches_host};
use crate::module::processing::model::PROVIDER_TWITTER;
use crate::net::ParsedUrl;

verus! {

pub const PROVIDER: &'static str = PROVIDER_TWITTER;

/// The lowercase `host` belongs to this provider: it is one of its domains
/// (twitter.com, x.com, t.co) or a subdomain of one.
pub open spec fn host_matches(host: Seq<char>) -> bool {
    host_is_or_under(host, "twitter.com"@) || host_is_or_under(host, "x.com"@) || host_is_or_under(host, "t.co"@)
}

/// The (raw) host belongs to this provider.
pub open spec fn spec_matches(host: Option<Seq<char>>) -> bool {
    match lower_host(host) {
        Some(host) => host_matches(host),
        None => false,
    }
}

/// Whether the URL's host belongs to this provider.
pub fn matches(url: &ParsedUrl) -> (r: bool)
    ensures
        r == spec_matches(url.host_view()),
{
    match lowered_host(url) {
        Some(host) => matches_host(host.as_slice(), "twitter.com") || matches_host(host.as_slice(), "x.com") || matches_host(host.as_slice(), "t.co"),
        None => false,
    }
}

} // verus!
