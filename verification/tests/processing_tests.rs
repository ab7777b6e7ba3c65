use videodownloaderbackend::config::environment::Environment;
use videodownloaderbackend::error::{ApiError, ApiErrorKind};
use videodownloaderbackend::module::processing::model::{DownloadRequestRecord, ResolvedDownloadRequest};
use videodownloaderbackend::module::processing::schema::{ProcessingRequestResponse, ResolveUrlRequest};
use videodownloaderbackend::service::processing::{
    build_content_disposition, check_downloadable, download_begin, download_failure_to_api_error,
    download_headers, download_step, get_request, metadata_failure_to_api_error, plan_persist,
    resolve_request_plan, resolve_step, DownloadAction, DownloadEvent, DownloadStage, PersistPlan,
    ResolveAction, ResolveEvent, ResolveStage,
};
use videodownloaderbackend::service::yt_dlp::{DownloadedMedia, ExtractedMediaMetadata};

fn base_vars() -> Vec<(String, String)> {
    [
        ("ALLOWED_ORIGINS", "https://app.example.com, https://admin.example.com"),
        ("APP_ENV", "test"),
        ("HOST", "127.0.0.1"),
        ("PORT", "8080"),
        ("PUBLIC_BASE_URL", "https://api.example.com"),
        ("RUST_LOG", "info"),
        ("DATABASE_URL", "postgres://localhost/videos"),
        ("DATABASE_MAX_CONNECTIONS", "10"),
        ("DATABASE_MIN_CONNECTIONS", "1"),
        ("DATABASE_ACQUIRE_TIMEOUT_SECONDS", "5"),
        ("DATABASE_RUN_MIGRATIONS", "true"),
        ("DOWNLOAD_TOKEN_SECRET", "SECRET-REDACTED"),
        ("DOWNLOAD_TOKEN_TTL_SECONDS", "-300"),
        ("MAX_URL_LENGTH", "2048"),
        ("MAX_DOWNLOAD_BYTES", "524288000"),
        ("MAX_VIDEO_DURATION_SECONDS", "3600"),
        ("UPSTREAM_CONNECT_TIMEOUT_SECONDS", "10"),
        ("UPSTREAM_REQUEST_TIMEOUT_SECONDS", "60"),
        ("UPSTREAM_MAX_REDIRECTS", "5"),
        ("UPSTREAM_USER_AGENT", "videodownloader/1.0"),
        ("STREAM_CHUNK_SIZE_BYTES", "65536"),
        ("YTDLP_BINARY_PATH", "/usr/local/bin/yt-dlp"),
        ("YTDLP_METADATA_TIMEOUT_SECONDS", "30"),
        ("YTDLP_DOWNLOAD_TIMEOUT_SECONDS", "600"),
        ("DOWNLOAD_RETENTION_SECONDS", "900"),
        ("RATE_LIMIT_REQUESTS_PER_MINUTE", "60"),
        ("TURNSTILE_SITE_KEY", "   "),
        ("ENABLE_TIKTOK", "true"),
        ("ENABLE_INSTAGRAM", "true"),
        ("ENABLE_YOUTUBE", "true"),
        ("ENABLE_TWITTER", "true"),
        ("ENABLE_FACEBOOK", "false"),
        ("ENABLE_PINTEREST", "true"),
        ("ENABLE_CAPCUT", "true"),
        ("ENABLE_TELEGRAM", "true"),
        ("ENABLE_SPOTIFY", "true"),
        ("ENABLE_SOUNDCLOUD", "true"),
        ("COOKIES_FILE_PATH", "/etc/cookies.txt"),
        ("FFMPEG_ENABLED", "true"),
        ("FFMPEG_BINARY_PATH", "ffmpeg"),
        ("TEMP_DIR", "/tmp/videodownloaderbackend"),
        ("TIKTOK_FALLBACK_ENABLED", "true"),
        ("TIKTOK_FALLBACK_API_URL", "https://www.tikwm.com/api/"),
        ("INSTAGRAM_OEMBED_FALLBACK_ENABLED", "true"),
    ]
    .iter()
    .map(|(k, v)| (k.to_string(), v.to_string()))
    .collect()
}

fn base_env() -> Environment {
    Environment::load(&base_vars()).expect("the base configuration should load")
}

const ID: u128 = 0x0123_4567_89ab_cdef_0123_4567_89ab_cdef;

fn err(kind: ApiErrorKind, code: &str, message: &str) -> ApiError {
    ApiError { kind, code: code.to_string(), message: message.to_string() }
}

fn bad_request(message: &str) -> ApiError {
    err(ApiErrorKind::BadRequest, "bad_request", message)
}

fn record(status: &str, provider: &str, extractor: Option<&str>) -> DownloadRequestRecord {
    DownloadRequestRecord {
        id: ID,
        provider: provider.to_string(),
        source_url: "https://www.tiktok.com/@user/video/1".to_string(),
        normalized_url: "https://www.tiktok.com/@user/video/1".to_string(),
        source_host: "www.tiktok.com".to_string(),
        status: status.to_string(),
        title: Some("Clip".to_string()),
        thumbnail_url: None,
        duration_seconds: Some(12),
        uploader: Some("user".to_string()),
        extractor: extractor.map(|e| e.to_string()),
        webpage_url: Some("https://www.tiktok.com/@user/video/1".to_string()),
        last_error: None,
        resolved_at: Some(1_700_000_000_000_000),
        created_at: 1_699_999_999_000_000,
        updated_at: 1_700_000_000_000_000,
    }
}

fn metadata(duration: Option<i64>) -> ExtractedMediaMetadata {
    ExtractedMediaMetadata {
        title: "Clip".to_string(),
        thumbnail_url: Some("https://img.example.com/t.jpg".to_string()),
        duration_seconds: duration,
        uploader: Some("user".to_string()),
        extractor: Some("youtube".to_string()),
        webpage_url: "https://www.youtube.com/watch?v=abc".to_string(),
    }
}

fn media() -> DownloadedMedia {
    DownloadedMedia {
        filename: "clip.mp4".to_string(),
        path: "/tmp/videodownloaderbackend/id/clip.mp4".to_string(),
        temp_dir: "/tmp/videodownloaderbackend/id".to_string(),
    }
}

fn plan(env: &Environment, url: &str) -> Result<(String, String, String, String, String), ApiError> {
    resolve_request_plan(env, &ResolveUrlRequest { url: url.to_string() }, ID).map(|n| {
        assert_eq!(n.id, ID);
        (n.provider, n.source_url, n.normalized_url, n.source_host, n.status)
    })
}

#[test]
fn plans_a_submitted_link() {
    let env = base_env();
    assert_eq!(
        plan(&env, "  https://www.YouTube.com/watch?v=abc#t=10 "),
        Ok((
            "youtube".to_string(),
            "https://www.YouTube.com/watch?v=abc#t=10".to_string(),
            "https://www.youtube.com/watch?v=abc".to_string(),
            "www.youtube.com".to_string(),
            "pending".to_string(),
        ))
    );
}

#[test]
fn refuses_links_it_cannot_take() {
    let env = base_env();
    assert_eq!(plan(&env, "   "), Err(bad_request("url is required")));
    let long = format!("https://www.youtube.com/watch?v={}", "a".repeat(2048));
    assert_eq!(plan(&env, &long), Err(bad_request("url exceeds the maximum allowed length")));
    assert_eq!(plan(&env, "not a url"), Err(bad_request("invalid url provided")));
    assert_eq!(
        plan(&env, "ftp://www.youtube.com/watch"),
        Err(bad_request("only http and https URLs are supported"))
    );
    assert_eq!(
        plan(&env, "https://www.facebook.com/watch?v=1"),
        Err(err(
            ApiErrorKind::ServiceUnavailable,
            "service_unavailable",
            "facebook support is disabled in this environment"
        ))
    );
}

#[test]
fn the_length_limit_counts_utf8_bytes() {
    let mut vars = base_vars();
    vars.retain(|(k, _)| k != "MAX_URL_LENGTH");
    vars.push(("MAX_URL_LENGTH".to_string(), "40".to_string()));
    let env = Environment::load(&vars).expect("configuration");
    // 36 characters, but 39 bytes.
    let link = "https://youtu.be/\u{e9}\u{e9}\u{e9}abcdefghijklmnop";
    assert_eq!(link.chars().count(), 36);
    assert!(plan(&env, link).is_ok());
    let link = "https://youtu.be/\u{e9}\u{e9}\u{e9}\u{e9}\u{e9}abcdefghijklmn";
    assert_eq!(link.chars().count(), 36);
    assert_eq!(plan(&env, link), Err(bad_request("url exceeds the maximum allowed length")));
}

#[test]
fn maps_extraction_failures_to_api_errors() {
    let unprocessable = |code: &str, message: &str| err(ApiErrorKind::Unprocessable, code, message);
    assert_eq!(
        metadata_failure_to_api_error("ERROR: Sign in to confirm you're not a bot"),
        unprocessable(
            "authentication_required",
            "this media requires provider cookies or a provider-specific fallback before it can be downloaded"
        )
    );
    assert_eq!(
        metadata_failure_to_api_error("ERROR: This video is DRM protected"),
        unprocessable(
            "drm_protected",
            "this provider uses DRM-protected media and cannot be downloaded by this backend"
        )
    );
    assert_eq!(
        metadata_failure_to_api_error("ERROR: Unsupported URL: https://example.com"),
        unprocessable("unsupported_extractor", "this URL is not supported by the configured extraction runtime")
    );
    assert_eq!(
        metadata_failure_to_api_error("ERROR: Video unavailable"),
        unprocessable("media_unavailable", "this media is unavailable, private, deleted, or blocked by the provider")
    );
    assert_eq!(
        metadata_failure_to_api_error("connection reset"),
        err(
            ApiErrorKind::ServiceUnavailable,
            "service_unavailable",
            "failed to extract media metadata from the supplied URL"
        )
    );
    assert_eq!(
        download_failure_to_api_error("connection reset"),
        err(ApiErrorKind::ServiceUnavailable, "service_unavailable", "failed to download the requested media")
    );
}

#[test]
fn error_kinds_answer_with_their_status() {
    assert_eq!(bad_request("x").status_code(), 400);
    assert_eq!(ApiError::not_found("x").status_code(), 404);
    assert_eq!(ApiError::unprocessable("c", "x").status_code(), 422);
    assert_eq!(ApiError::service_unavailable("x").status_code(), 503);
    assert_eq!(ApiError::internal("x").status_code(), 500);
    assert_eq!(ApiError::internal("x").code, "internal_error");
}

#[test]
fn stores_metadata_or_refuses_long_media() {
    let env = base_env();
    assert_eq!(
        plan_persist(&env, metadata(Some(3600))),
        PersistPlan::MarkResolved(ResolvedDownloadRequest {
            status: "resolved".to_string(),
            title: Some("Clip".to_string()),
            thumbnail_url: Some("https://img.example.com/t.jpg".to_string()),
            duration_seconds: Some(3600),
            uploader: Some("user".to_string()),
            extractor: Some("youtube".to_string()),
            webpage_url: Some("https://www.youtube.com/watch?v=abc".to_string()),
        })
    );
    assert_eq!(
        plan_persist(&env, metadata(Some(3601))),
        PersistPlan::MarkFailed {
            message: "requested media duration of 3601 seconds exceeds the configured maximum of 3600 seconds"
                .to_string(),
            reply: bad_request("requested media exceeds the maximum allowed duration"),
        }
    );
    assert!(matches!(plan_persist(&env, metadata(None)), PersistPlan::MarkResolved(_)));
    assert!(matches!(plan_persist(&env, metadata(Some(-5))), PersistPlan::MarkResolved(_)));
}

#[test]
fn shows_a_stored_request() {
    let shown = ProcessingRequestResponse::from_record(record("resolved", "tiktok", None));
    assert_eq!(
        shown.download_url.as_deref(),
        Some("/processing/01234567-89ab-cdef-0123-456789abcdef/download")
    );
    assert_eq!(
        shown.message,
        "request resolved; preview is ready and the download endpoint will fetch the best available media"
    );
    assert_eq!(shown.title.as_deref(), Some("Clip"));
    assert_eq!(shown.created_at, 1_699_999_999_000_000);
    let pending = ProcessingRequestResponse::from_record(record("pending", "tiktok", None));
    assert_eq!(pending.download_url, None);
    assert_eq!(pending.message, "request accepted; metadata extraction is in progress");
    let failed = ProcessingRequestResponse::from_record(record("failed", "tiktok", None));
    assert_eq!(failed.download_url, None);
    assert_eq!(failed.message, "request failed during metadata extraction");
}

#[test]
fn show_answers_not_found_and_load_failures() {
    assert_eq!(
        get_request(Ok(None)).unwrap_err(),
        err(ApiErrorKind::NotFound, "not_found", "download request not found")
    );
    assert_eq!(
        get_request(Err(())).unwrap_err(),
        err(ApiErrorKind::Internal, "internal_error", "failed to fetch download request")
    );
    let shown = get_request(Ok(Some(record("pending", "youtube", None)))).expect("shown");
    assert_eq!(shown.request.provider, "youtube");
}

#[test]
fn only_resolved_requests_can_be_downloaded() {
    assert_eq!(check_downloadable(&record("resolved", "tiktok", None)), Ok(()));
    assert_eq!(
        check_downloadable(&record("failed", "tiktok", None)),
        Err(err(
            ApiErrorKind::ServiceUnavailable,
            "service_unavailable",
            "this request failed during metadata extraction"
        ))
    );
    assert_eq!(
        check_downloadable(&record("pending", "tiktok", None)),
        Err(err(ApiErrorKind::ServiceUnavailable, "service_unavailable", "this request is not ready for download yet"))
    );
}

#[test]
fn builds_download_headers() {
    assert_eq!(
        build_content_disposition("my \"clip\".mp4").as_deref(),
        Some("attachment; filename=\"my clip.mp4\"")
    );
    assert_eq!(build_content_disposition("bad\nname.mp4"), None);
    let headers = download_headers("clip.mp4", 1_048_576).expect("headers");
    assert_eq!(headers.content_disposition, "attachment; filename=\"clip.mp4\"");
    assert_eq!(headers.content_length, "1048576");
    assert_eq!(
        download_headers("a\u{7f}b", 1).unwrap_err(),
        err(ApiErrorKind::Internal, "internal_error", "failed to build download headers")
    );
}

#[test]
fn resolves_a_request_step_by_step() {
    let env = base_env();
    let (stage, action) = resolve_step(
        &env,
        ResolveStage::Start,
        ResolveEvent::Begin {
            payload: ResolveUrlRequest { url: "https://youtu.be/abc".to_string() },
            request_id: ID,
        },
    );
    match action {
        ResolveAction::Insert(n) => {
            assert_eq!(n.provider, "youtube");
            assert_eq!(n.source_host, "youtu.be");
        },
        other => panic!("unexpected action {other:?}"),
    }
    assert_eq!(
        stage,
        ResolveStage::Inserting { provider: "youtube".to_string(), source_url: "https://youtu.be/abc".to_string() }
    );
    let (stage, action) = resolve_step(&env, stage, ResolveEvent::Inserted { ok: true });
    assert_eq!(action, ResolveAction::ExtractPrimary { source_url: "https://youtu.be/abc".to_string() });
    let (stage, action) = resolve_step(&env, stage, ResolveEvent::PrimaryExtracted(Ok(metadata(Some(10)))));
    assert!(matches!(action, ResolveAction::MarkResolved(ref u) if u.status == "resolved"));
    assert_eq!(stage, ResolveStage::Resolving);
    let (stage, action) =
        resolve_step(&env, stage, ResolveEvent::Resolved(Some(record("resolved", "youtube", None))));
    assert_eq!(stage, ResolveStage::Finished);
    match action {
        ResolveAction::Reply(Ok(resp)) => assert_eq!(resp.request.status, "resolved"),
        other => panic!("unexpected action {other:?}"),
    }
}

#[test]
fn falls_back_and_then_records_the_failure() {
    let env = base_env();
    let stage = ResolveStage::Extracting {
        provider: "tiktok".to_string(),
        source_url: "https://www.tiktok.com/@u/video/1".to_string(),
    };
    let (stage, action) =
        resolve_step(&env, stage, ResolveEvent::PrimaryExtracted(Err("ERROR: Private video".to_string())));
    assert_eq!(
        action,
        ResolveAction::ExtractFallback {
            provider: "tiktok".to_string(),
            source_url: "https://www.tiktok.com/@u/video/1".to_string()
        }
    );
    let (stage, action) =
        resolve_step(&env, stage, ResolveEvent::FallbackExtracted(Err("tikwm said no".to_string())));
    assert_eq!(
        action,
        ResolveAction::MarkFailed {
            message: "ERROR: Private video; provider fallback failed: tikwm said no".to_string()
        }
    );
    let (stage, action) = resolve_step(&env, stage, ResolveEvent::MarkedFailed);
    assert_eq!(stage, ResolveStage::Finished);
    assert_eq!(
        action,
        ResolveAction::Reply(Err(err(
            ApiErrorKind::Unprocessable,
            "media_unavailable",
            "this media is unavailable, private, deleted, or blocked by the provider"
        )))
    );
}

#[test]
fn no_fallback_records_the_primary_error() {
    let env = base_env();
    let stage = ResolveStage::FallingBack {
        provider: "youtube".to_string(),
        source_url: "https://youtu.be/abc".to_string(),
        primary_error: "timed out".to_string(),
    };
    let (stage, action) = resolve_step(&env, stage, ResolveEvent::FallbackExtracted(Ok(None)));
    assert_eq!(action, ResolveAction::MarkFailed { message: "timed out".to_string() });
    assert_eq!(
        stage,
        ResolveStage::MarkingFailed {
            reply: err(
                ApiErrorKind::ServiceUnavailable,
                "service_unavailable",
                "failed to extract media metadata from the supplied URL"
            )
        }
    );
}

#[test]
fn resolution_failures_finish_with_internal_errors() {
    let env = base_env();
    let stage = ResolveStage::Inserting { provider: "youtube".to_string(), source_url: "u".to_string() };
    assert_eq!(
        resolve_step(&env, stage, ResolveEvent::Inserted { ok: false }),
        (
            ResolveStage::Finished,
            ResolveAction::Reply(Err(err(
                ApiErrorKind::Internal,
                "internal_error",
                "failed to persist download request"
            )))
        )
    );
    assert_eq!(
        resolve_step(&env, ResolveStage::Resolving, ResolveEvent::Resolved(None)),
        (
            ResolveStage::Finished,
            ResolveAction::Reply(Err(err(ApiErrorKind::Internal, "internal_error", "failed to update resolved request")))
        )
    );
    assert_eq!(
        resolve_step(&env, ResolveStage::Start, ResolveEvent::MarkedFailed),
        (
            ResolveStage::Finished,
            ResolveAction::Reply(Err(err(
                ApiErrorKind::Internal,
                "internal_error",
                "unexpected step in request resolution"
            )))
        )
    );
    // A media too long is marked failed and answered with the duration error.
    let stage = ResolveStage::Extracting { provider: "youtube".to_string(), source_url: "u".to_string() };
    let (stage, action) = resolve_step(&env, stage, ResolveEvent::PrimaryExtracted(Ok(metadata(Some(7200)))));
    assert_eq!(
        action,
        ResolveAction::MarkFailed {
            message: "requested media duration of 7200 seconds exceeds the configured maximum of 3600 seconds"
                .to_string()
        }
    );
    assert_eq!(
        resolve_step(&env, stage, ResolveEvent::MarkedFailed).1,
        ResolveAction::Reply(Err(bad_request("requested media exceeds the maximum allowed duration")))
    );
}

#[test]
fn downloads_prefer_tikwm_only_for_tikwm_requests() {
    assert_eq!(
        download_begin(&record("resolved", "tiktok", Some("TikWM"))),
        (DownloadStage::DirectFirst, DownloadAction::TryDirect)
    );
    assert_eq!(
        download_begin(&record("resolved", "tiktok", Some("TikTok"))),
        (DownloadStage::Ytdlp, DownloadAction::TryYtdlp)
    );
    assert_eq!(
        download_begin(&record("resolved", "youtube", Some("TikWM"))),
        (DownloadStage::Ytdlp, DownloadAction::TryYtdlp)
    );
}

#[test]
fn download_steps_fall_through_in_order() {
    assert_eq!(
        download_step(DownloadStage::DirectFirst, DownloadEvent::DirectDone(Ok(Some(media())))),
        (DownloadStage::Finished, DownloadAction::Finish(Ok(media())))
    );
    assert_eq!(
        download_step(DownloadStage::DirectFirst, DownloadEvent::DirectDone(Err("403".to_string()))),
        (DownloadStage::Ytdlp, DownloadAction::TryYtdlp)
    );
    let (stage, action) =
        download_step(DownloadStage::Ytdlp, DownloadEvent::YtdlpDone(Err("ERROR: Private video".to_string())));
    assert_eq!(action, DownloadAction::TryDirect);
    assert_eq!(
        download_step(stage, DownloadEvent::DirectDone(Ok(None))),
        (
            DownloadStage::Finished,
            DownloadAction::Finish(Err(err(
                ApiErrorKind::Unprocessable,
                "media_unavailable",
                "this media is unavailable, private, deleted, or blocked by the provider"
            )))
        )
    );
    assert_eq!(
        download_step(DownloadStage::Ytdlp, DownloadEvent::DirectDone(Ok(None))),
        (
            DownloadStage::Finished,
            DownloadAction::Finish(Err(err(ApiErrorKind::Internal, "internal_error", "unexpected step in media download")))
        )
    );
}
