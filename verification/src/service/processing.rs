//! The processing of download requests: validating a link, the steps that
//! resolve its metadata, and the steps that fetch its media. The application
//! performs each action these functions choose and reports what came of it.
use vstd::prelude::*;
use vstd::utf8::encode_utf8;

use crate::config::environment::Environment;
use crate::error::{
    bad_request_view, internal_view, not_found_view, service_unavailable_view, unprocessable_view,
    ApiError, ApiErrorKind,
};
use crate::module::processing::model::{
    DownloadRequestRecord, NewDownloadRequest, ResolvedDownloadRequest, DOWNLOAD_STATUS_FAILED,
    DOWNLOAD_STATUS_PENDING, DOWNLOAD_STATUS_RESOLVED,
};
use crate::module::processing::schema::{ProcessingRequestResponse, ResolveUrlRequest, ResolveUrlResponse};
use crate::net::{
    header_char_ok, header_value_valid, parse_url, spec_url_host, spec_url_parses, spec_url_scheme,
    spec_url_without_fragment, ParsedUrl,
};
use crate::service::fallbacks::{should_prefer_direct_download, spec_prefers_direct};
use crate::service::providers::{
    detect_provider, host_is_or_under, lemma_ends_with_char, lemma_under_ends_with, spec_detect_provider,
    tiktok, youtube,
};
use crate::service::yt_dlp::{
    classify_failure, opt_seq, spec_classify_failure, DownloadedMedia, ExtractedMediaMetadata,
    YtDlpFailureKind,
};
use crate::text::{append, ascii_lowercase, concat, decimal, decimal_int, decimal_i64, decimal_u64, lowercase, owned, str_eq, trim};

verus! {

// ---------------------------------------------------------------------------
// Validating a link
// ---------------------------------------------------------------------------

/// Only `http` and `https` links are accepted.
pub open spec fn scheme_supported(scheme: Seq<char>) -> bool {
    scheme == "http"@ || scheme == "https"@
}

/// Accepts `http` and `https` links.
pub fn validate_supported_scheme(url: &ParsedUrl) -> (r: Result<(), ApiError>)
    ensures
        scheme_supported(url.scheme@) ==> r is Ok,
        !scheme_supported(url.scheme@) ==> (r matches Err(e) && e@ == bad_request_view(
            "only http and https URLs are supported"@,
        )),
{
    if str_eq(url.scheme.as_str(), "http") || str_eq(url.scheme.as_str(), "https") {
        Ok(())
    } else {
        Err(ApiError::bad_request("only http and https URLs are supported"))
    }
}

/// Exactly the schemes `http` and `https` pass the scheme check: a plain
/// `http` link is accepted as well as an `https` one.
pub proof fn lemma_http_and_https_accepted(scheme: Seq<char>)
    ensures
        scheme_supported(scheme) <==> (scheme == "http"@ || scheme == "https"@),
{
}

/// A link with scheme `http` or `https` whose host is on a YouTube domain (in
/// any letter case) is planned, while YouTube is enabled, as a pending
/// YouTube request for that link, its fragment-free form and its lowercase
/// host.
pub proof fn lemma_youtube_links_are_planned(
    env: &Environment,
    source_url: Seq<char>,
    scheme: Seq<char>,
    host: Seq<char>,
    without_fragment: Seq<char>,
    request_id: u128,
)
    requires
        scheme == "http"@ || scheme == "https"@,
        env.enable_youtube,
        host_is_or_under(lowercase(host), "youtube.com"@) || host_is_or_under(
            lowercase(host),
            "youtu.be"@,
        ),
    ensures
        spec_plan_parsed(env, source_url, Some((scheme, Some(host), without_fragment)), request_id)
            == Ok::<_, (ApiErrorKind, Seq<char>, Seq<char>)>(
            (request_id, "youtube"@, source_url, without_fragment, lowercase(host), "pending"@),
        ),
{
    reveal_strlit("youtube.com");
    reveal_strlit("youtu.be");
    reveal_strlit("tiktok.com");
    reveal_strlit(".tiktok.com");
    reveal_strlit("vm.tiktok.com");
    reveal_strlit("vt.tiktok.com");
    reveal_strlit("youtube");
    let h = lowercase(host);
    if host_is_or_under(h, "youtube.com"@) {
        lemma_under_ends_with(h, "youtube.com"@);
        lemma_ends_with_char(h, "youtube.com"@, 5);
        assert(h[h.len() - 5] == 'e');
        if crate::text::ends_with(h, ".tiktok.com"@) {
            lemma_ends_with_char(h, ".tiktok.com"@, 5);
        }
    } else {
        lemma_under_ends_with(h, "youtu.be"@);
        lemma_ends_with_char(h, "youtu.be"@, 1);
        assert(h[h.len() - 1] == 'e');
        if crate::text::ends_with(h, ".tiktok.com"@) {
            lemma_ends_with_char(h, ".tiktok.com"@, 1);
        }
    }
    assert(!tiktok::host_matches(h));
    assert(youtube::spec_matches(Some(host)));
}

/// The link as stored for comparison: the URL without its fragment.
pub fn normalize_url(url: &ParsedUrl) -> (r: String)
    ensures
        r@ == url.without_fragment@,
{
    owned(url.without_fragment.as_str())
}

/// The view of a request to store: id, provider, link, normalized link,
/// host and status.
pub open spec fn new_request_view(n: NewDownloadRequest) -> (
    u128,
    Seq<char>,
    Seq<char>,
    Seq<char>,
    Seq<char>,
    Seq<char>,
) {
    (n.id, n.provider@, n.source_url@, n.normalized_url@, n.source_host@, n.status@)
}

/// The request to store for `source_url`, given what `Url::parse` made of it
/// (with its parts as named values), or the error answered instead.
pub open spec fn spec_plan_parsed(
    env: &Environment,
    source_url: Seq<char>,
    parsed: Option<(Seq<char>, Option<Seq<char>>, Seq<char>)>,
    request_id: u128,
) -> Result<
    (u128, Seq<char>, Seq<char>, Seq<char>, Seq<char>, Seq<char>),
    (ApiErrorKind, Seq<char>, Seq<char>),
> {
    match parsed {
        None => Err(bad_request_view("invalid url provided"@)),
        Some((scheme, host, without_fragment)) => if !scheme_supported(scheme) {
            Err(bad_request_view("only http and https URLs are supported"@))
        } else {
            match spec_detect_provider(host, env) {
                Err(e) => Err(e),
                Ok(provider) => match host {
                    None => Err(bad_request_view("url host is missing"@)),
                    Some(h) => Ok(
                        (request_id, provider, source_url, without_fragment, lowercase(h), "pending"@),
                    ),
                },
            }
        },
    }
}

/// The parts of a parsed URL that a plan reads.
pub open spec fn plan_parts(url: ParsedUrl) -> (Seq<char>, Option<Seq<char>>, Seq<char>) {
    (url.scheme@, url.host_view(), url.without_fragment@)
}

/// The request to store for the link `source_url` given what `Url::parse`
/// made of it (`None` when it refused it): the scheme must be http(s), the
/// provider known and enabled, and the host present.
pub fn plan_from_parsed(
    env: &Environment,
    source_url: &str,
    parsed: Option<ParsedUrl>,
    request_id: u128,
) -> (r: Result<NewDownloadRequest, ApiError>)
    ensures
        match spec_plan_parsed(
            env,
            source_url@,
            match parsed {
                Some(u) => Some(plan_parts(u)),
                None => None,
            },
            request_id,
        ) {
            Ok(v) => r matches Ok(n) && new_request_view(n) == v,
            Err(e) => r matches Err(err) && err@ == e,
        },
{
    let url = match parsed {
        Some(u) => u,
        None => return Err(ApiError::bad_request("invalid url provided")),
    };
    match validate_supported_scheme(&url) {
        Ok(()) => {},
        Err(e) => return Err(e),
    }
    let provider = match detect_provider(&url, env) {
        Ok(p) => p,
        Err(e) => return Err(e),
    };
    let normalized_url = normalize_url(&url);
    let source_host = match &url.host {
        Some(h) => ascii_lowercase(h.as_str()),
        None => return Err(ApiError::bad_request("url host is missing")),
    };
    Ok(
        NewDownloadRequest {
            id: request_id,
            provider: owned(provider),
            source_url: owned(source_url),
            normalized_url,
            source_host,
            status: owned(DOWNLOAD_STATUS_PENDING),
        },
    )
}

/// The request to store for a submitted link, or the error answered instead:
/// the link is trimmed, must not be empty or longer (in UTF-8 bytes) than the
/// configured maximum, and must parse as a URL (see [`spec_plan_parsed`]).
pub open spec fn spec_resolve_plan(env: &Environment, url: Seq<char>, request_id: u128) -> Result<
    (u128, Seq<char>, Seq<char>, Seq<char>, Seq<char>, Seq<char>),
    (ApiErrorKind, Seq<char>, Seq<char>),
> {
    let source_url = trim(url);
    if source_url.len() == 0 {
        Err(bad_request_view("url is required"@))
    } else if (encode_utf8(source_url).len() as usize) > env.max_url_length {
        Err(bad_request_view("url exceeds the maximum allowed length"@))
    } else {
        spec_plan_parsed(
            env,
            source_url,
            if spec_url_parses(source_url) {
                Some(
                    (
                        spec_url_scheme(source_url),
                        spec_url_host(source_url),
                        spec_url_without_fragment(source_url),
                    ),
                )
            } else {
                None
            },
            request_id,
        )
    }
}

/// A blank link is refused as missing, and a link longer (in UTF-8 bytes,
/// after trimming) than the configured maximum is refused as too long,
/// whatever else it holds. (A link held in memory has a length that fits in
/// a `usize`.)
pub proof fn lemma_blank_and_long_links_refused(env: &Environment, url: Seq<char>, request_id: u128)
    requires
        encode_utf8(trim(url)).len() <= usize::MAX,
    ensures
        trim(url).len() == 0 ==> spec_resolve_plan(env, url, request_id) == Err::<
            (u128, Seq<char>, Seq<char>, Seq<char>, Seq<char>, Seq<char>),
            (ApiErrorKind, Seq<char>, Seq<char>),
        >((ApiErrorKind::BadRequest, "bad_request"@, "url is required"@)),
        trim(url).len() > 0 && encode_utf8(trim(url)).len() > env.max_url_length ==> spec_resolve_plan(
            env,
            url,
            request_id,
        ) == Err::<
            (u128, Seq<char>, Seq<char>, Seq<char>, Seq<char>, Seq<char>),
            (ApiErrorKind, Seq<char>, Seq<char>),
        >((ApiErrorKind::BadRequest, "bad_request"@, "url exceeds the maximum allowed length"@)),
{
}

/// The request to store for a submitted link (see [`spec_resolve_plan`]);
/// `request_id` is the fresh id the request gets.
pub fn resolve_request_plan(env: &Environment, payload: &ResolveUrlRequest, request_id: u128) -> (r:
    Result<NewDownloadRequest, ApiError>)
    ensures
        match spec_resolve_plan(env, payload.url@, request_id) {
            Ok(v) => r matches Ok(n) && new_request_view(n) == v,
            Err(e) => r matches Err(err) && err@ == e,
        },
{
    let source_url = crate::text::trim_str(payload.url.as_str());
    if source_url.as_str().is_empty() {
        return Err(ApiError::bad_request("url is required"));
    }
    if source_url.as_str().len() > env.max_url_length {
        return Err(ApiError::bad_request("url exceeds the maximum allowed length"));
    }
    let parsed = parse_url(source_url.as_str());
    let ghost t = source_url@;
    assert(match parsed {
        Some(u) => Some(plan_parts(u)),
        None => None,
    } == if spec_url_parses(t) {
        Some((spec_url_scheme(t), spec_url_host(t), spec_url_without_fragment(t)))
    } else {
        None
    });
    plan_from_parsed(env, source_url.as_str(), parsed, request_id)
}

// ---------------------------------------------------------------------------
// Errors of extraction and download
// ---------------------------------------------------------------------------

/// The error answered for a failed extraction: what its kind says, or
/// `temporary_message` for a temporary failure.
pub open spec fn spec_extraction_failure(error: Seq<char>, temporary_message: Seq<char>) -> (
    ApiErrorKind,
    Seq<char>,
    Seq<char>,
) {
    match spec_classify_failure(error) {
        YtDlpFailureKind::AuthenticationRequired => unprocessable_view(
            "authentication_required"@,
            "this media requires provider cookies or a provider-specific fallback before it can be downloaded"@,
        ),
        YtDlpFailureKind::DrmProtected => unprocessable_view(
            "drm_protected"@,
            "this provider uses DRM-protected media and cannot be downloaded by this backend"@,
        ),
        YtDlpFailureKind::Unsupported => unprocessable_view(
            "unsupported_extractor"@,
            "this URL is not supported by the configured extraction runtime"@,
        ),
        YtDlpFailureKind::Unavailable => unprocessable_view(
            "media_unavailable"@,
            "this media is unavailable, private, deleted, or blocked by the provider"@,
        ),
        YtDlpFailureKind::Temporary => service_unavailable_view(temporary_message),
    }
}

/// The error answered for a failed extraction with message `error`.
pub fn extraction_failure_to_api_error(error: &str, temporary_message: &str) -> (r: ApiError)
    ensures
        r@ == spec_extraction_failure(error@, temporary_message@),
{
    match classify_failure(error) {
        YtDlpFailureKind::AuthenticationRequired => ApiError::unprocessable(
            "authentication_required",
            "this media requires provider cookies or a provider-specific fallback before it can be downloaded",
        ),
        YtDlpFailureKind::DrmProtected => ApiError::unprocessable(
            "drm_protected",
            "this provider uses DRM-protected media and cannot be downloaded by this backend",
        ),
        YtDlpFailureKind::Unsupported => ApiError::unprocessable(
            "unsupported_extractor",
            "this URL is not supported by the configured extraction runtime",
        ),
        YtDlpFailureKind::Unavailable => ApiError::unprocessable(
            "media_unavailable",
            "this media is unavailable, private, deleted, or blocked by the provider",
        ),
        YtDlpFailureKind::Temporary => ApiError::service_unavailable(temporary_message),
    }
}

/// The temporary message of a failed metadata extraction.
pub open spec fn metadata_failure_message() -> Seq<char> {
    "failed to extract media metadata from the supplied URL"@
}

/// The temporary message of a failed download.
pub open spec fn download_failure_message() -> Seq<char> {
    "failed to download the requested media"@
}

/// The error answered when metadata extraction failed with `error`.
pub fn metadata_failure_to_api_error(error: &str) -> (r: ApiError)
    ensures
        r@ == spec_extraction_failure(error@, metadata_failure_message()),
{
    extraction_failure_to_api_error(error, "failed to extract media metadata from the supplied URL")
}

/// The error answered when the download failed with `error`.
pub fn download_failure_to_api_error(error: &str) -> (r: ApiError)
    ensures
        r@ == spec_extraction_failure(error@, download_failure_message()),
{
    extraction_failure_to_api_error(error, "failed to download the requested media")
}

// ---------------------------------------------------------------------------
// Storing resolved metadata
// ---------------------------------------------------------------------------

/// The media is longer than the configured maximum.
pub open spec fn too_long(env: &Environment, metadata: ExtractedMediaMetadata) -> bool {
    metadata.duration_seconds matches Some(d) && d > (env.max_video_duration_seconds as i64)
}

/// The failure recorded for media of `duration` seconds over `max`.
pub open spec fn too_long_message(duration: i64, max: u64) -> Seq<char> {
    "requested media duration of "@ + decimal_int(duration as int)
        + " seconds exceeds the configured maximum of "@ + decimal(max as nat) + " seconds"@
}

/// Media is refused for its length exactly when it reports a duration above
/// the configured maximum; media without a duration is never refused. (The
/// maximum is compared as an `i64`, so it must be one.)
pub proof fn lemma_duration_limit(env: &Environment, metadata: ExtractedMediaMetadata)
    requires
        env.max_video_duration_seconds <= i64::MAX,
    ensures
        metadata.duration_seconds is None ==> !too_long(env, metadata),
        metadata.duration_seconds matches Some(d) ==> (too_long(env, metadata) <==> d
            > env.max_video_duration_seconds),
{
}

/// What is stored once metadata is known: the record marked failed (with a
/// message, answering an error) when the media is too long, else the record
/// updated as resolved.
#[derive(Debug, PartialEq, Eq)]
pub enum PersistPlan {
    MarkFailed { message: String, reply: ApiError },
    MarkResolved(ResolvedDownloadRequest),
}

/// The update of a resolved request with `metadata`.
pub open spec fn resolved_update_from(r: ResolvedDownloadRequest, m: ExtractedMediaMetadata) -> bool {
    &&& r.status@ == "resolved"@
    &&& opt_seq(r.title) == Some(m.title@)
    &&& r.thumbnail_url == m.thumbnail_url
    &&& r.duration_seconds == m.duration_seconds
    &&& r.uploader == m.uploader
    &&& r.extractor == m.extractor
    &&& opt_seq(r.webpage_url) == Some(m.webpage_url@)
}

/// What to store once `metadata` is known.
pub fn plan_persist(env: &Environment, metadata: ExtractedMediaMetadata) -> (r: PersistPlan)
    ensures
        too_long(env, metadata) ==> (r matches PersistPlan::MarkFailed { message, reply }
            && message@ == too_long_message(
            metadata.duration_seconds->Some_0,
            env.max_video_duration_seconds,
        ) && reply@ == bad_request_view("requested media exceeds the maximum allowed duration"@)),
        !too_long(env, metadata) ==> (r matches PersistPlan::MarkResolved(u) && resolved_update_from(
            u,
            metadata,
        )),
{
    if let Some(duration_seconds) = metadata.duration_seconds {
        let max = env.max_video_duration_seconds as i64;
        if duration_seconds > max {
            let mut message = owned("requested media duration of ");
            let d = decimal_i64(duration_seconds);
            append(&mut message, d.as_str());
            append(&mut message, " seconds exceeds the configured maximum of ");
            let m = decimal_u64(env.max_video_duration_seconds);
            append(&mut message, m.as_str());
            append(&mut message, " seconds");
            return PersistPlan::MarkFailed {
                message,
                reply: ApiError::bad_request("requested media exceeds the maximum allowed duration"),
            };
        }
    }
    PersistPlan::MarkResolved(
        ResolvedDownloadRequest {
            status: owned(DOWNLOAD_STATUS_RESOLVED),
            title: Some(metadata.title),
            thumbnail_url: metadata.thumbnail_url,
            duration_seconds: metadata.duration_seconds,
            uploader: metadata.uploader,
            extractor: metadata.extractor,
            webpage_url: Some(metadata.webpage_url),
        },
    )
}

// ---------------------------------------------------------------------------
// Loading and showing a request
// ---------------------------------------------------------------------------

/// The stored request, or the error answered: the load failed (`Err`), or no
/// request has that id (`Ok(None)`).
pub fn load_request(loaded: Result<Option<DownloadRequestRecord>, ()>) -> (r: Result<
    DownloadRequestRecord,
    ApiError,
>)
    ensures
        match loaded {
            Ok(Some(record)) => r == Ok::<DownloadRequestRecord, ApiError>(record),
            Ok(None) => r matches Err(e) && e@ == not_found_view("download request not found"@),
            Err(()) => r matches Err(e) && e@ == internal_view("failed to fetch download request"@),
        },
{
    match loaded {
        Ok(Some(record)) => Ok(record),
        Ok(None) => Err(ApiError::not_found("download request not found")),
        Err(()) => Err(ApiError::internal("failed to fetch download request")),
    }
}

/// The answer to a show request, given the outcome of loading the request.
pub fn get_request(loaded: Result<Option<DownloadRequestRecord>, ()>) -> (r: Result<
    ResolveUrlResponse,
    ApiError,
>)
    ensures
        match loaded {
            Ok(Some(record)) => r matches Ok(resp) && resp.request.shows(record),
            Ok(None) => r matches Err(e) && e@ == not_found_view("download request not found"@),
            Err(()) => r matches Err(e) && e@ == internal_view("failed to fetch download request"@),
        },
{
    match load_request(loaded) {
        Ok(record) => Ok(ResolveUrlResponse { request: ProcessingRequestResponse::from_record(record) }),
        Err(e) => Err(e),
    }
}

/// Only a resolved request can be downloaded.
pub fn check_downloadable(record: &DownloadRequestRecord) -> (r: Result<(), ApiError>)
    ensures
        record.status@ == "failed"@ ==> (r matches Err(e) && e@ == service_unavailable_view(
            "this request failed during metadata extraction"@,
        )),
        record.status@ != "failed"@ && record.status@ != "resolved"@ ==> (r matches Err(e) && e@
            == service_unavailable_view("this request is not ready for download yet"@)),
        record.status@ == "resolved"@ ==> r is Ok,
{
    proof {
        reveal_strlit("failed");
        reveal_strlit("resolved");
        assert("failed"@.len() != "resolved"@.len());
    }
    if str_eq(record.status.as_str(), "failed") {
        return Err(ApiError::service_unavailable("this request failed during metadata extraction"));
    }
    if !str_eq(record.status.as_str(), "resolved") {
        return Err(ApiError::service_unavailable("this request is not ready for download yet"));
    }
    Ok(())
}

/// `s` without its `"` characters.
pub open spec fn without_quotes(s: Seq<char>) -> Seq<char>
    decreases s.len(),
{
    if s.len() == 0 {
        Seq::empty()
    } else if s.last() == '"' {
        without_quotes(s.drop_last())
    } else {
        without_quotes(s.drop_last()).push(s.last())
    }
}

/// The `Content-Disposition` value for a download named `filename`.
pub open spec fn spec_content_disposition(filename: Seq<char>) -> Seq<char> {
    "attachment; filename=\""@ + without_quotes(filename) + "\""@
}

/// The text is a valid header value.
pub open spec fn valid_header(s: Seq<char>) -> bool {
    forall|i: int| 0 <= i < s.len() ==> header_char_ok(#[trigger] s[i])
}

/// The `Content-Disposition` value for a download named `filename` (its
/// quotes dropped), when it is a valid header value.
pub fn build_content_disposition(filename: &str) -> (r: Option<String>)
    ensures
        valid_header(spec_content_disposition(filename@)) ==> (r matches Some(v) && v@
            == spec_content_disposition(filename@)),
        !valid_header(spec_content_disposition(filename@)) ==> r is None,
{
    let chars = crate::text::chars_of(filename);
    let n = chars.len();
    let mut kept: Vec<char> = Vec::new();
    for i in 0..n
        invariant
            n == chars@.len(),
            chars@ == filename@,
            kept@ == without_quotes(filename@.take(i as int)),
    {
        assert(filename@.take(i + 1).drop_last() =~= filename@.take(i as int));
        if chars[i] != '"' {
            kept.push(chars[i]);
        }
    }
    assert(filename@.take(n as int) =~= filename@);
    let mut value = owned("attachment; filename=\"");
    let fallback = crate::text::string_from_chars(kept.as_slice());
    append(&mut value, fallback.as_str());
    append(&mut value, "\"");
    if header_value_valid(value.as_str()) {
        Some(value)
    } else {
        None
    }
}

/// The headers of a download answer.
#[derive(Debug, PartialEq, Eq)]
pub struct DownloadHeaders {
    pub content_disposition: String,
    pub content_length: String,
}

/// The headers of the answer carrying a download named `filename` of `len`
/// bytes, or the error answered when they cannot be built.
pub fn download_headers(filename: &str, len: u64) -> (r: Result<DownloadHeaders, ApiError>)
    ensures
        valid_header(spec_content_disposition(filename@)) ==> (r matches Ok(h)
            && h.content_disposition@ == spec_content_disposition(filename@) && h.content_length@
            == decimal(len as nat)),
        !valid_header(spec_content_disposition(filename@)) ==> (r matches Err(e) && e@
            == internal_view("failed to build download headers"@)),
{
    match build_content_disposition(filename) {
        Some(content_disposition) => Ok(
            DownloadHeaders { content_disposition, content_length: decimal_u64(len) },
        ),
        None => Err(ApiError::internal("failed to build download headers")),
    }
}

// ---------------------------------------------------------------------------
// Resolving a request, step by step
// ---------------------------------------------------------------------------

/// Where the resolution of a request stands.
#[derive(Debug, PartialEq, Eq)]
pub enum ResolveStage {
    /// Nothing has happened yet.
    Start,
    /// The request is being stored.
    Inserting { provider: String, source_url: String },
    /// `yt-dlp` is extracting the metadata.
    Extracting { provider: String, source_url: String },
    /// The provider fallback is extracting the metadata, after `yt-dlp`
    /// failed with `primary_error`.
    FallingBack { provider: String, source_url: String, primary_error: String },
    /// The stored request is being marked resolved.
    Resolving,
    /// The stored request is being marked failed; `reply` is answered next.
    MarkingFailed { reply: ApiError },
    /// The answer has been given.
    Finished,
}

/// What came of the last action.
#[derive(Debug, PartialEq, Eq)]
pub enum ResolveEvent {
    /// A link was submitted; the request gets the id `request_id`.
    Begin { payload: ResolveUrlRequest, request_id: u128 },
    /// The request was stored, or storing it failed.
    Inserted { ok: bool },
    /// What `yt-dlp` extracted, or its error.
    PrimaryExtracted(Result<ExtractedMediaMetadata, String>),
    /// What the provider fallback extracted (`None` when no fallback applies),
    /// or its error.
    FallbackExtracted(Result<Option<ExtractedMediaMetadata>, String>),
    /// The record marked resolved, or `None` when the update failed.
    Resolved(Option<DownloadRequestRecord>),
    /// The record was marked failed (whether or not that succeeded).
    MarkedFailed,
}

/// What the application does next.
#[derive(Debug, PartialEq, Eq)]
pub enum ResolveAction {
    /// Store the new request.
    Insert(NewDownloadRequest),
    /// Extract the metadata of the link with `yt-dlp`.
    ExtractPrimary { source_url: String },
    /// Extract the metadata with the provider fallback.
    ExtractFallback { provider: String, source_url: String },
    /// Mark the stored request resolved with this update.
    MarkResolved(ResolvedDownloadRequest),
    /// Mark the stored request failed with this message.
    MarkFailed { message: String },
    /// Answer the client.
    Reply(Result<ResolveUrlResponse, ApiError>),
}

/// How many steps at most remain from a stage before the answer.
pub open spec fn resolve_rank(stage: ResolveStage) -> nat {
    match stage {
        ResolveStage::Start => 5,
        ResolveStage::Inserting { .. } => 4,
        ResolveStage::Extracting { .. } => 3,
        ResolveStage::FallingBack { .. } => 2,
        ResolveStage::Resolving => 1,
        ResolveStage::MarkingFailed { .. } => 1,
        ResolveStage::Finished => 0,
    }
}

/// The step that stores metadata: the request is marked failed (answering
/// the duration error) when the media is too long, else marked resolved.
pub open spec fn stores_metadata(
    env: &Environment,
    m: ExtractedMediaMetadata,
    r: (ResolveStage, ResolveAction),
) -> bool {
    if too_long(env, m) {
        &&& r.0 matches ResolveStage::MarkingFailed { reply } && reply@ == bad_request_view(
            "requested media exceeds the maximum allowed duration"@,
        )
        &&& r.1 matches ResolveAction::MarkFailed { message } && message@ == too_long_message(
            m.duration_seconds->Some_0,
            env.max_video_duration_seconds,
        )
    } else {
        &&& r.0 == ResolveStage::Resolving
        &&& r.1 matches ResolveAction::MarkResolved(u) && resolved_update_from(u, m)
    }
}

/// The step that gives up on the metadata: the request is marked failed with
/// `message`, then the error for `yt-dlp`'s failure is answered.
pub open spec fn gives_up(primary_error: Seq<char>, message: Seq<char>, r: (ResolveStage, ResolveAction)) -> bool {
    &&& r.0 matches ResolveStage::MarkingFailed { reply } && reply@ == spec_extraction_failure(
        primary_error,
        metadata_failure_message(),
    )
    &&& r.1 matches ResolveAction::MarkFailed { message: m } && m@ == message
}

/// A step that answers with an internal error and finishes.
pub open spec fn fails_internally(message: Seq<char>, r: (ResolveStage, ResolveAction)) -> bool {
    &&& r.0 == ResolveStage::Finished
    &&& r.1 matches ResolveAction::Reply(Err(e)) && e@ == internal_view(message)
}

/// The step that stores metadata.
fn store_metadata(env: &Environment, m: ExtractedMediaMetadata) -> (r: (ResolveStage, ResolveAction))
    ensures
        stores_metadata(env, m, r),
{
    match plan_persist(env, m) {
        PersistPlan::MarkFailed { message, reply } => (
            ResolveStage::MarkingFailed { reply },
            ResolveAction::MarkFailed { message },
        ),
        PersistPlan::MarkResolved(update) => (ResolveStage::Resolving, ResolveAction::MarkResolved(update)),
    }
}

/// The next step of resolving a request, given where it stands and what came
/// of the last action. A submitted link is validated and stored; its metadata
/// is extracted with `yt-dlp`, else with the provider fallback; the stored
/// request is then marked resolved or failed, and the answer given. An event
/// that does not fit the stage finishes with an internal error.
pub fn resolve_step(env: &Environment, stage: ResolveStage, event: ResolveEvent) -> (r: (
    ResolveStage,
    ResolveAction,
))
    ensures
        match (stage, event) {
            (ResolveStage::Start, ResolveEvent::Begin { payload, request_id }) => match spec_resolve_plan(
                env,
                payload.url@,
                request_id,
            ) {
                Ok(v) => (r.1 matches ResolveAction::Insert(n) && new_request_view(n) == v) && (
                r.0 matches ResolveStage::Inserting { provider, source_url } && provider@ == v.1
                    && source_url@ == v.2),
                Err(e) => r.0 == ResolveStage::Finished && (r.1 matches ResolveAction::Reply(Err(err))
                    && err@ == e),
            },
            (ResolveStage::Inserting { provider, source_url }, ResolveEvent::Inserted { ok }) => if ok {
                r.0 == (ResolveStage::Extracting { provider, source_url }) && r.1 == (
                ResolveAction::ExtractPrimary { source_url })
            } else {
                fails_internally("failed to persist download request"@, r)
            },
            (
                ResolveStage::Extracting { provider, source_url },
                ResolveEvent::PrimaryExtracted(res),
            ) => match res {
                Ok(m) => stores_metadata(env, m, r),
                Err(e) => r.0 == (ResolveStage::FallingBack {
                    provider,
                    source_url,
                    primary_error: e,
                }) && r.1 == (ResolveAction::ExtractFallback { provider, source_url }),
            },
            (
                ResolveStage::FallingBack { provider, source_url, primary_error },
                ResolveEvent::FallbackExtracted(res),
            ) => match res {
                Ok(Some(m)) => stores_metadata(env, m, r),
                Ok(None) => gives_up(primary_error@, primary_error@, r),
                Err(fallback_error) => gives_up(
                    primary_error@,
                    primary_error@ + "; provider fallback failed: "@ + fallback_error@,
                    r,
                ),
            },
            (ResolveStage::Resolving, ResolveEvent::Resolved(updated)) => match updated {
                Some(record) => r.0 == ResolveStage::Finished && (r.1 matches ResolveAction::Reply(
                    Ok(resp),
                ) && resp.request.shows(record)),
                None => fails_internally("failed to update resolved request"@, r),
            },
            (ResolveStage::MarkingFailed { reply }, ResolveEvent::MarkedFailed) => r.0
                == ResolveStage::Finished && r.1 == ResolveAction::Reply(Err(reply)),
            _ => fails_internally("unexpected step in request resolution"@, r),
        },
        r.1 is Reply <==> r.0 is Finished,
        !(r.1 is Reply) ==> resolve_rank(r.0) < resolve_rank(stage),
{
    match (stage, event) {
        (ResolveStage::Start, ResolveEvent::Begin { payload, request_id }) => {
            match resolve_request_plan(env, &payload, request_id) {
                Ok(new_request) => {
                    let provider = owned(new_request.provider.as_str());
                    let source_url = owned(new_request.source_url.as_str());
                    (
                        ResolveStage::Inserting { provider, source_url },
                        ResolveAction::Insert(new_request),
                    )
                },
                Err(e) => (ResolveStage::Finished, ResolveAction::Reply(Err(e))),
            }
        },
        (ResolveStage::Inserting { provider, source_url }, ResolveEvent::Inserted { ok }) => {
            if ok {
                let target = source_url.clone();
                (
                    ResolveStage::Extracting { provider, source_url },
                    ResolveAction::ExtractPrimary { source_url: target },
                )
            } else {
                (
                    ResolveStage::Finished,
                    ResolveAction::Reply(Err(ApiError::internal("failed to persist download request"))),
                )
            }
        },
        (ResolveStage::Extracting { provider, source_url }, ResolveEvent::PrimaryExtracted(res)) => {
            match res {
                Ok(m) => store_metadata(env, m),
                Err(e) => {
                    let p = provider.clone();
                    let s = source_url.clone();
                    (
                        ResolveStage::FallingBack { provider, source_url, primary_error: e },
                        ResolveAction::ExtractFallback { provider: p, source_url: s },
                    )
                },
            }
        },
        (
            ResolveStage::FallingBack { provider, source_url, primary_error },
            ResolveEvent::FallbackExtracted(res),
        ) => {
            match res {
                Ok(Some(m)) => store_metadata(env, m),
                Ok(None) => {
                    let reply = metadata_failure_to_api_error(primary_error.as_str());
                    (ResolveStage::MarkingFailed { reply }, ResolveAction::MarkFailed { message: primary_error })
                },
                Err(fallback_error) => {
                    let reply = metadata_failure_to_api_error(primary_error.as_str());
                    let mut message = owned(primary_error.as_str());
                    append(&mut message, "; provider fallback failed: ");
                    append(&mut message, fallback_error.as_str());
                    (ResolveStage::MarkingFailed { reply }, ResolveAction::MarkFailed { message })
                },
            }
        },
        (ResolveStage::Resolving, ResolveEvent::Resolved(updated)) => {
            match updated {
                Some(record) => (
                    ResolveStage::Finished,
                    ResolveAction::Reply(
                        Ok(ResolveUrlResponse { request: ProcessingRequestResponse::from_record(record) }),
                    ),
                ),
                None => (
                    ResolveStage::Finished,
                    ResolveAction::Reply(Err(ApiError::internal("failed to update resolved request"))),
                ),
            }
        },
        (ResolveStage::MarkingFailed { reply }, ResolveEvent::MarkedFailed) => {
            (ResolveStage::Finished, ResolveAction::Reply(Err(reply)))
        },
        _ => (
            ResolveStage::Finished,
            ResolveAction::Reply(Err(ApiError::internal("unexpected step in request resolution"))),
        ),
    }
}

// ---------------------------------------------------------------------------
// Fetching the media, step by step
// ---------------------------------------------------------------------------

/// Where the download of a resolved request stands.
#[derive(Debug, PartialEq, Eq)]
pub enum DownloadStage {
    /// The direct (provider fallback) download is tried first.
    DirectFirst,
    /// `yt-dlp` is downloading.
    Ytdlp,
    /// The direct download is tried after `yt-dlp` failed with `ytdlp_error`.
    DirectAfter { ytdlp_error: String },
    /// The outcome is known.
    Finished,
}

/// What came of the last download attempt.
#[derive(Debug, PartialEq, Eq)]
pub enum DownloadEvent {
    /// The direct download's file (`None` when no direct download applies),
    /// or its error.
    DirectDone(Result<Option<DownloadedMedia>, String>),
    /// The `yt-dlp` download's file, or its error.
    YtdlpDone(Result<DownloadedMedia, String>),
}

/// What the application does next.
#[derive(Debug, PartialEq, Eq)]
pub enum DownloadAction {
    /// Try the direct download.
    TryDirect,
    /// Download with `yt-dlp`.
    TryYtdlp,
    /// Stop with this outcome.
    Finish(Result<DownloadedMedia, ApiError>),
}

/// How many attempts at most remain from a stage.
pub open spec fn download_rank(stage: DownloadStage) -> nat {
    match stage {
        DownloadStage::DirectFirst => 3,
        DownloadStage::Ytdlp => 2,
        DownloadStage::DirectAfter { .. } => 1,
        DownloadStage::Finished => 0,
    }
}

/// The first step of downloading `record`: the direct download when the
/// request's metadata came from TikWM, else `yt-dlp`.
pub fn download_begin(record: &DownloadRequestRecord) -> (r: (DownloadStage, DownloadAction))
    ensures
        spec_prefers_direct(record) ==> r == (DownloadStage::DirectFirst, DownloadAction::TryDirect),
        !spec_prefers_direct(record) ==> r == (DownloadStage::Ytdlp, DownloadAction::TryYtdlp),
{
    if should_prefer_direct_download(record) {
        (DownloadStage::DirectFirst, DownloadAction::TryDirect)
    } else {
        (DownloadStage::Ytdlp, DownloadAction::TryYtdlp)
    }
}

/// The next step of a download: a file from any attempt finishes it; a
/// failed or inapplicable first direct download falls through to `yt-dlp`;
/// a failed `yt-dlp` download is followed by the direct download, and when
/// that fails too the error answered is the one for `yt-dlp`'s failure. An
/// event that does not fit the stage finishes with an internal error.
pub fn download_step(stage: DownloadStage, event: DownloadEvent) -> (r: (DownloadStage, DownloadAction))
    ensures
        match (stage, event) {
            (DownloadStage::DirectFirst, DownloadEvent::DirectDone(res)) => match res {
                Ok(Some(m)) => r == (DownloadStage::Finished, DownloadAction::Finish(Ok(m))),
                _ => r == (DownloadStage::Ytdlp, DownloadAction::TryYtdlp),
            },
            (DownloadStage::Ytdlp, DownloadEvent::YtdlpDone(res)) => match res {
                Ok(m) => r == (DownloadStage::Finished, DownloadAction::Finish(Ok(m))),
                Err(e) => r == (DownloadStage::DirectAfter { ytdlp_error: e }, DownloadAction::TryDirect),
            },
            (DownloadStage::DirectAfter { ytdlp_error }, DownloadEvent::DirectDone(res)) => match res {
                Ok(Some(m)) => r == (DownloadStage::Finished, DownloadAction::Finish(Ok(m))),
                _ => r.0 == DownloadStage::Finished && (r.1 matches DownloadAction::Finish(Err(e))
                    && e@ == spec_extraction_failure(ytdlp_error@, download_failure_message())),
            },
            _ => r.0 == DownloadStage::Finished && (r.1 matches DownloadAction::Finish(Err(e)) && e@
                == internal_view("unexpected step in media download"@)),
        },
        r.1 is Finish <==> r.0 is Finished,
        !(r.1 is Finish) ==> download_rank(r.0) < download_rank(stage),
{
    match (stage, event) {
        (DownloadStage::DirectFirst, DownloadEvent::DirectDone(res)) => match res {
            Ok(Some(m)) => (DownloadStage::Finished, DownloadAction::Finish(Ok(m))),
            _ => (DownloadStage::Ytdlp, DownloadAction::TryYtdlp),
        },
        (DownloadStage::Ytdlp, DownloadEvent::YtdlpDone(res)) => match res {
            Ok(m) => (DownloadStage::Finished, DownloadAction::Finish(Ok(m))),
            Err(e) => (DownloadStage::DirectAfter { ytdlp_error: e }, DownloadAction::TryDirect),
        },
        (DownloadStage::DirectAfter { ytdlp_error }, DownloadEvent::DirectDone(res)) => match res {
            Ok(Some(m)) => (DownloadStage::Finished, DownloadAction::Finish(Ok(m))),
            _ => (
                DownloadStage::Finished,
                DownloadAction::Finish(Err(download_failure_to_api_error(ytdlp_error.as_str()))),
            ),
        },
        _ => (
            DownloadStage::Finished,
            DownloadAction::Finish(Err(ApiError::internal("unexpected step in media download"))),
        ),
    }
}

} // verus!
