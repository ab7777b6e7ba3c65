//! Links to telegram.
use vstd::prelude::*;

use super::{host_is_or_under, lower_host, lowered_host, matches_host};
use crate::module::processing::model::PROVIDER_TELEGRAM;
use crate::net::ParsedUrl;

verus! {

pub const PROVIDER: &'static str = PROVIDER_TELEGRAM;

/// The lowercase `host` belongs to this provider: it is one of its domains
/// (t.me, telegram.me) or a subdomain of one.
pub open spec fn host_matches(host: Seq<char>) -> bool {
    host_is_or_under(host, "t.me"@) || host_is_or_under(host, "telegram.me"@)
}

/// The (raw) host belongs to this provider.
pub open spec fn spec_matches(host: Option<Seq<char>>) -> bool {
    match lower_host(host) {
        Some(host) => host_matches(host),
        None => false,
    }
}

/// Whether the URL's host belongs to this provider.
pub fn matches(url: &ParsedUrl) -> (r: bool)
    ensures
        r == spec_matches(url.host_view()),
{
    match lowered_host(url) {
        Some(host) => matches_host(host.as_slice(), "t.me") || matches_host(host.as_slice(), "telegram.me"),
        None => false,
    }
}

} // verus!
