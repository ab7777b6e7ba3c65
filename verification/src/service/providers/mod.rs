//! Which provider a link belongs to.
use vstd::prelude::*;

pub mod capcut;
pub mod facebook;
pub mod instagram;
pub mod pinterest;
pub mod soundcloud;
pub mod spotify;
pub mod telegram;
pub mod tiktok;
pub mod twitter;
pub mod youtube;

use crate::config::environment::Environment;
use crate::error::{bad_request_view, service_unavailable_view, ApiError, ApiErrorKind};
use crate::net::ParsedUrl;
use crate::text::{
    ascii_lowercase, chars_eq, chars_ends_with, chars_of, concat, ends_with, lowercase,
};

verus! {

/// `host` is `domain` or one of its subdomains.
pub open spec fn host_is_or_under(host: Seq<char>, domain: Seq<char>) -> bool {
    ||| host == domain
    ||| (ends_with(host, domain) && host.len() > domain.len() && host[host.len() - domain.len() - 1]
        == '.')
}

/// Whether `host` is `domain` or one of its subdomains.
pub fn matches_host(host: &[char], domain: &str) -> (r: bool)
    ensures
        r == host_is_or_under(host@, domain@),
{
    let d = chars_of(domain);
    if chars_eq(host, d.as_slice()) {
        return true;
    }
    if !chars_ends_with(host, d.as_slice()) || host.len() <= d.len() {
        return false;
    }
    host[host.len() - d.len() - 1] == '.'
}

/// The host in ASCII lowercase.
pub open spec fn lower_host(host: Option<Seq<char>>) -> Option<Seq<char>> {
    match host {
        Some(h) => Some(lowercase(h)),
        None => None,
    }
}

/// The URL's host in ASCII lowercase, as characters.
pub fn lowered_host(url: &ParsedUrl) -> (r: Option<Vec<char>>)
    ensures
        match lower_host(url.host_view()) {
            Some(h) => r matches Some(v) && v@ == h,
            None => r is None,
        },
{
    match &url.host {
        Some(h) => {
            let lower = ascii_lowercase(h.as_str());
            Some(chars_of(lower.as_str()))
        },
        None => None,
    }
}

/// The message for a link of no supported provider.
pub open spec fn unsupported_message() -> Seq<char> {
    "unsupported provider; supported providers are tiktok, youtube, instagram, twitter, facebook, pinterest, capcut, telegram, spotify, and soundcloud"@
}

/// The provider's name when its support is enabled, else the error for it.
pub open spec fn enabled_result(flag: bool, provider: Seq<char>) -> Result<
    Seq<char>,
    (ApiErrorKind, Seq<char>, Seq<char>),
> {
    if flag {
        Ok(provider)
    } else {
        Err(service_unavailable_view(provider + " support is disabled in this environment"@))
    }
}

/// The provider of the link, tried in a fixed order, and whether its support
/// is enabled.
pub open spec fn spec_detect_provider(host: Option<Seq<char>>, env: &Environment) -> Result<
    Seq<char>,
    (ApiErrorKind, Seq<char>, Seq<char>),
> {
        if tiktok::spec_matches(host) {
            enabled_result(env.enable_tiktok, tiktok::PROVIDER@)
        } else {
            if youtube::spec_matches(host) {
                enabled_result(env.enable_youtube, youtube::PROVIDER@)
            } else {
                if instagram::spec_matches(host) {
                    enabled_result(env.enable_instagram, instagram::PROVIDER@)
                } else {
                    if twitter::spec_matches(host) {
                        enabled_result(env.enable_twitter, twitter::PROVIDER@)
                    } else {
                        if facebook::spec_matches(host) {
                            enabled_result(env.enable_facebook, facebook::PROVIDER@)
                        } else {
                            if pinterest::spec_matches(host) {
                                enabled_result(env.enable_pinterest, pinterest::PROVIDER@)
                            } else {
                                if capcut::spec_matches(host) {
                                    enabled_result(env.enable_capcut, capcut::PROVIDER@)
                                } else {
                                    if telegram::spec_matches(host) {
                                        enabled_result(env.enable_telegram, telegram::PROVIDER@)
                                    } else {
                                        if spotify::spec_matches(host) {
                                            enabled_result(env.enable_spotify, spotify::PROVIDER@)
                                        } else {
                                            if soundcloud::spec_matches(host) {
                                                enabled_result(env.enable_soundcloud, soundcloud::PROVIDER@)
                                            } else {
                                                Err(bad_request_view(unsupported_message()))
                                            }
                                        }
                                    }
                                }
                            }
                        }
                    }
                }
            }
        }
}

/// `provider` when `flag` is set, else the error that its support is disabled.
pub fn enabled(flag: bool, provider: &'static str) -> (r: Result<&'static str, ApiError>)
    ensures
        match enabled_result(flag, provider@) {
            Ok(p) => r matches Ok(q) && q@ == p,
            Err(e) => r matches Err(err) && err@ == e,
        },
{
    if flag {
        Ok(provider)
    } else {
        let message = concat(provider, " support is disabled in this environment");
        Err(ApiError::service_unavailable(message.as_str()))
    }
}

/// The provider of a link: the first of tiktok, youtube, instagram, twitter,
/// facebook, pinterest, capcut, telegram, spotify and soundcloud whose
/// domains hold its host, when support for it is enabled.
pub fn detect_provider(url: &ParsedUrl, env: &Environment) -> (r: Result<&'static str, ApiError>)
    ensures
        match spec_detect_provider(url.host_view(), env) {
            Ok(p) => r matches Ok(q) && q@ == p,
            Err(e) => r matches Err(err) && err@ == e,
        },
{
    if tiktok::matches(url) {
        return enabled(env.enable_tiktok, tiktok::PROVIDER);
    }
    if youtube::matches(url) {
        return enabled(env.enable_youtube, youtube::PROVIDER);
    }
    if instagram::matches(url) {
        return enabled(env.enable_instagram, instagram::PROVIDER);
    }
    if twitter::matches(url) {
        return enabled(env.enable_twitter, twitter::PROVIDER);
    }
    if facebook::matches(url) {
        return enabled(env.enable_facebook, facebook::PROVIDER);
    }
    if pinterest::matches(url) {
        return enabled(env.enable_pinterest, pinterest::PROVIDER);
    }
    if capcut::matches(url) {
        return enabled(env.enable_capcut, capcut::PROVIDER);
    }
    if telegram::matches(url) {
        return enabled(env.enable_telegram, telegram::PROVIDER);
    }
    if spotify::matches(url) {
        return enabled(env.enable_spotify, spotify::PROVIDER);
    }
    if soundcloud::matches(url) {
        return enabled(env.enable_soundcloud, soundcloud::PROVIDER);
    }
    Err(
        ApiError::bad_request(
            "unsupported provider; supported providers are tiktok, youtube, instagram, twitter, facebook, pinterest, capcut, telegram, spotify, and soundcloud",
        ),
    )
}

/// A provider is named only for a link on one of its domains while its
/// support is enabled; a link is unsupported exactly when no provider's
/// domains hold its host.
pub proof fn lemma_detected_provider_matches(host: Option<Seq<char>>, env: &Environment)
    ensures
        spec_detect_provider(host, env) matches Ok(p) ==> ((tiktok::spec_matches(host) && env.enable_tiktok && p == tiktok::PROVIDER@)
            || (youtube::spec_matches(host) && env.enable_youtube && p == youtube::PROVIDER@)
            || (instagram::spec_matches(host) && env.enable_instagram && p == instagram::PROVIDER@)
            || (twitter::spec_matches(host) && env.enable_twitter && p == twitter::PROVIDER@)
            || (facebook::spec_matches(host) && env.enable_facebook && p == facebook::PROVIDER@)
            || (pinterest::spec_matches(host) && env.enable_pinterest && p == pinterest::PROVIDER@)
            || (capcut::spec_matches(host) && env.enable_capcut && p == capcut::PROVIDER@)
            || (telegram::spec_matches(host) && env.enable_telegram && p == telegram::PROVIDER@)
            || (spotify::spec_matches(host) && env.enable_spotify && p == spotify::PROVIDER@)
            || (soundcloud::spec_matches(host) && env.enable_soundcloud && p == soundcloud::PROVIDER@)),
        (spec_detect_provider(host, env) == Err::<Seq<char>, (ApiErrorKind, Seq<char>, Seq<char>)>(
            bad_request_view(unsupported_message()),
        )) <==> (!tiktok::spec_matches(host) && !youtube::spec_matches(host) && !instagram::spec_matches(host) && !twitter::spec_matches(host) && !facebook::spec_matches(host) && !pinterest::spec_matches(host) && !capcut::spec_matches(host) && !telegram::spec_matches(host) && !spotify::spec_matches(host) && !soundcloud::spec_matches(host)),
{
}

/// A text that ends with `suffix` has `suffix`'s characters at its end.
pub proof fn lemma_ends_with_char(s: Seq<char>, suffix: Seq<char>, k: int)
    requires
        ends_with(s, suffix),
        1 <= k <= suffix.len(),
    ensures
        s[s.len() - k] == suffix[suffix.len() - k],
{
    assert(s.subrange(s.len() - suffix.len(), s.len() as int)[suffix.len() - k] == s[s.len() - k]);
}

/// A host that is `domain` or one of its subdomains ends with `domain`.
pub proof fn lemma_under_ends_with(host: Seq<char>, domain: Seq<char>)
    requires
        host_is_or_under(host, domain),
    ensures
        ends_with(host, domain),
{
    if host == domain {
        assert(host.subrange(0, host.len() as int) =~= host);
    }
}

/// A host `d` or `<label>.d`, for `d` each of twitter.com, x.com and t.co, in
/// any letter case, is a Twitter host.
pub proof fn lemma_twitter_hosts(host: Seq<char>)
    requires
        host_is_or_under(lowercase(host), "twitter.com"@) || host_is_or_under(lowercase(host), "x.com"@)
            || host_is_or_under(lowercase(host), "t.co"@),
    ensures
        twitter::spec_matches(Some(host)),
{
}

/// When Twitter is enabled, a link whose host is t.co or one of its
/// subdomains (in any letter case) is detected as a Twitter link.
pub proof fn lemma_t_co_is_twitter(host: Seq<char>, env: &Environment)
    requires
        env.enable_twitter,
        host_is_or_under(lowercase(host), "t.co"@),
    ensures
        spec_detect_provider(Some(host), env) == Ok::<Seq<char>, (ApiErrorKind, Seq<char>, Seq<char>)>(
            "twitter"@,
        ),
{
    reveal_strlit("t.co");
    reveal_strlit("tiktok.com");
    reveal_strlit(".tiktok.com");
    reveal_strlit("vm.tiktok.com");
    reveal_strlit("vt.tiktok.com");
    reveal_strlit("youtube.com");
    reveal_strlit("youtu.be");
    reveal_strlit("instagram.com");
    reveal_strlit("twitter");
    let h = lowercase(host);
    lemma_under_ends_with(h, "t.co"@);
    lemma_ends_with_char(h, "t.co"@, 1);
    assert(h[h.len() - 1] == 'o');
    if ends_with(h, ".tiktok.com"@) {
        lemma_ends_with_char(h, ".tiktok.com"@, 1);
    }
    assert(!tiktok::host_matches(h));
    if host_is_or_under(h, "youtube.com"@) {
        lemma_under_ends_with(h, "youtube.com"@);
        lemma_ends_with_char(h, "youtube.com"@, 1);
    }
    if host_is_or_under(h, "youtu.be"@) {
        lemma_under_ends_with(h, "youtu.be"@);
        lemma_ends_with_char(h, "youtu.be"@, 1);
    }
    assert(!youtube::host_matches(h));
    if host_is_or_under(h, "instagram.com"@) {
        lemma_under_ends_with(h, "instagram.com"@);
        lemma_ends_with_char(h, "instagram.com"@, 1);
    }
    assert(!instagram::host_matches(h));
    assert(twitter::spec_matches(Some(host)));
}

/// Each provider's domains, and their subdomains, in any letter case, are
/// that provider's hosts: tiktok.com (with vm. and vt.), youtube.com and
/// youtu.be, instagram.com, facebook.com and fb.watch, pinterest.com and
/// pin.it, capcut.com, t.me and telegram.me, spotify.com, soundcloud.com.
pub proof fn lemma_provider_domains(host: Seq<char>)
    ensures
        host_is_or_under(lowercase(host), "tiktok.com"@) ==> tiktok::spec_matches(Some(host)),
        host_is_or_under(lowercase(host), "youtube.com"@) || host_is_or_under(lowercase(host), "youtu.be"@)
            ==> youtube::spec_matches(Some(host)),
        host_is_or_under(lowercase(host), "instagram.com"@) ==> instagram::spec_matches(Some(host)),
        host_is_or_under(lowercase(host), "facebook.com"@) || host_is_or_under(lowercase(host), "fb.watch"@)
            ==> facebook::spec_matches(Some(host)),
        host_is_or_under(lowercase(host), "pinterest.com"@) || host_is_or_under(
            lowercase(host),
            "pin.it"@,
        ) ==> pinterest::spec_matches(Some(host)),
        host_is_or_under(lowercase(host), "capcut.com"@) ==> capcut::spec_matches(Some(host)),
        host_is_or_under(lowercase(host), "t.me"@) || host_is_or_under(lowercase(host), "telegram.me"@)
            ==> telegram::spec_matches(Some(host)),
        host_is_or_under(lowercase(host), "spotify.com"@) ==> spotify::spec_matches(Some(host)),
        host_is_or_under(lowercase(host), "soundcloud.com"@) ==> soundcloud::spec_matches(Some(host)),
{
    reveal_strlit("tiktok.com");
    reveal_strlit(".tiktok.com");
    let h = lowercase(host);
    if host_is_or_under(h, "tiktok.com"@) && h != "tiktok.com"@ {
        let d = "tiktok.com"@;
        assert(h.subrange(h.len() - d.len() - 1, h.len() as int) =~= ".tiktok.com"@) by {
            assert forall|i: int| 0 <= i < 11 implies h.subrange(h.len() - d.len() - 1, h.len() as int)[i]
                == ".tiktok.com"@[i] by {
                if i > 0 {
                    assert(h.subrange(h.len() - d.len(), h.len() as int)[i - 1] == d[i - 1]);
                }
            }
        }
    }
}

} // verus!
