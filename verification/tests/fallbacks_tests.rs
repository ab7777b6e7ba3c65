use videodownloaderbackend::service::fallbacks::{direct_media, tiktok_download_target};
use videodownloaderbackend::config::environment::Environment;
use videodownloaderbackend::module::processing::model::DownloadRequestRecord;
use videodownloaderbackend::service::fallbacks::{
    accept_chunk, check_content_length, check_fallback_size, direct_download_applies,
    extract_instagram_oembed_metadata, extract_tiktok_metadata, finish_download,
    instagram_oembed_request, instagram_shortcode, metadata_fallback, non_empty, public_filename,
    sanitize_filename_part, shortcode_from_segments, should_prefer_direct_download,
    tiktok_direct_plan, tiktok_fallback_request_url, tiktok_webpage_url, tikwm_attempt,
    InstagramOembedResponse, MetadataFallback, TikwmAuthor, TikwmData, TikwmResponse, TikwmStep,
};

fn base_vars() -> Vec<(String, String)> {
    [
        ("ALLOWED_ORIGINS", "https://app.example.com, https://admin.example.com"),
        ("APP_ENV", "test"),
        ("HOST", "127.0.0.1"),
        ("PORT", "8080"),
        ("PUBLIC_BASE_URL", "https://api.example.com"),
        ("RUST_LOG", "info"),
        ("DATABASE_URL", "postgres://localhost/videos"),
        ("DATABASE_MAX_CONNECTIONS", "10"),
        ("DATABASE_MIN_CONNECTIONS", "1"),
        ("DATABASE_ACQUIRE_TIMEOUT_SECONDS", "5"),
        ("DATABASE_RUN_MIGRATIONS", "true"),
        ("DOWNLOAD_TOKEN_SECRET", "SECRET-REDACTED"),
        ("DOWNLOAD_TOKEN_TTL_SECONDS", "-300"),
        ("MAX_URL_LENGTH", "2048"),
        ("MAX_DOWNLOAD_BYTES", "524288000"),
        ("MAX_VIDEO_DURATION_SECONDS", "3600"),
        ("UPSTREAM_CONNECT_TIMEOUT_SECONDS", "10"),
        ("UPSTREAM_REQUEST_TIMEOUT_SECONDS", "60"),
        ("UPSTREAM_MAX_REDIRECTS", "5"),
        ("UPSTREAM_USER_AGENT", "videodownloader/1.0"),
        ("STREAM_CHUNK_SIZE_BYTES", "65536"),
        ("YTDLP_BINARY_PATH", "/usr/local/bin/yt-dlp"),
        ("YTDLP_METADATA_TIMEOUT_SECONDS", "30"),
        ("YTDLP_DOWNLOAD_TIMEOUT_SECONDS", "600"),
        ("DOWNLOAD_RETENTION_SECONDS", "900"),
        ("RATE_LIMIT_REQUESTS_PER_MINUTE", "60"),
        ("TURNSTILE_SITE_KEY", "   "),
        ("ENABLE_TIKTOK", "true"),
        ("ENABLE_INSTAGRAM", "true"),
        ("ENABLE_YOUTUBE", "true"),
        ("ENABLE_TWITTER", "true"),
        ("ENABLE_FACEBOOK", "false"),
        ("ENABLE_PINTEREST", "true"),
        ("ENABLE_CAPCUT", "true"),
        ("ENABLE_TELEGRAM", "true"),
        ("ENABLE_SPOTIFY", "true"),
        ("ENABLE_SOUNDCLOUD", "true"),
        ("COOKIES_FILE_PATH", "/etc/cookies.txt"),
        ("FFMPEG_ENABLED", "true"),
        ("FFMPEG_BINARY_PATH", "ffmpeg"),
        ("TEMP_DIR", "/tmp/videodownloaderbackend"),
        ("TIKTOK_FALLBACK_ENABLED", "true"),
        ("TIKTOK_FALLBACK_API_URL", "https://www.tikwm.com/api/"),
        ("INSTAGRAM_OEMBED_FALLBACK_ENABLED", "true"),
    ]
    .iter()
    .map(|(k, v)| (k.to_string(), v.to_string()))
    .collect()
}

fn base_env() -> Environment {
    Environment::load(&base_vars()).expect("the base configuration should load")
}

fn record(provider: &str, extractor: Option<&str>) -> DownloadRequestRecord {
    DownloadRequestRecord {
        id: 7,
        provider: provider.to_string(),
        source_url: "https://www.tiktok.com/@a/video/1".to_string(),
        normalized_url: "https://www.tiktok.com/@a/video/1".to_string(),
        source_host: "www.tiktok.com".to_string(),
        status: "resolved".to_string(),
        title: None,
        thumbnail_url: None,
        duration_seconds: None,
        uploader: None,
        extractor: extractor.map(str::to_string),
        webpage_url: None,
        last_error: None,
        resolved_at: None,
        created_at: 0,
        updated_at: 0,
    }
}

fn data(id: &str) -> TikwmData {
    TikwmData {
        id: id.to_string(),
        title: None,
        cover: None,
        origin_cover: None,
        duration: None,
        play: None,
        author: None,
    }
}

#[test]
fn parses_instagram_shortcodes_from_common_paths() {
    assert_eq!(
        instagram_shortcode("https://www.instagram.com/reel/DaWAZhQSSYQ/?igsh=test"),
        Some("DaWAZhQSSYQ".to_owned())
    );
    assert_eq!(
        instagram_shortcode("https://www.instagram.com/p/ABC123/"),
        Some("ABC123".to_owned())
    );
}

#[test]
fn sanitizes_filename_parts() {
    assert_eq!(sanitize_filename_part("abc-123_DEF"), "abc-123_DEF");
    assert_eq!(sanitize_filename_part("a/b c"), "a_b_c");
}

#[test]
fn sanitizing_is_idempotent_and_never_empty() {
    assert_eq!(sanitize_filename_part(""), "media");
    assert_eq!(sanitize_filename_part("é✓"), "__");
    let once = sanitize_filename_part("x/y?z");
    assert_eq!(sanitize_filename_part(&once), once);
}

#[test]
fn shortcode_is_the_segment_after_the_first_marker() {
    let segs = |s: &[&str]| s.iter().map(|x| x.to_string()).collect::<Vec<_>>();
    assert_eq!(shortcode_from_segments(&segs(&["tv", "X1", "p", "Y"])), Some("X1".to_string()));
    assert_eq!(shortcode_from_segments(&segs(&["user", "reels", ""])), None);
    assert_eq!(shortcode_from_segments(&segs(&["p"])), None);
    assert_eq!(shortcode_from_segments(&segs(&["stories", "abc"])), None);
    assert_eq!(instagram_shortcode("not a url"), None);
    assert_eq!(instagram_shortcode("https://www.instagram.com/someone/"), None);
}

#[test]
fn non_empty_trims_and_drops_blank_values() {
    assert_eq!(non_empty(Some("  hi ")), Some("hi".to_string()));
    assert_eq!(non_empty(Some(" \t")), None);
    assert_eq!(non_empty(None), None);
}

#[test]
fn builds_tiktok_metadata_with_fallbacks() {
    let mut d = data("7301");
    d.title = Some("  ".to_string());
    d.origin_cover = Some("https://cover".to_string());
    d.duration = Some(15);
    d.author = Some(TikwmAuthor { unique_id: Some(" creator ".to_string()), nickname: Some("Nick".to_string()) });
    assert_eq!(
        tiktok_webpage_url(&d),
        Some("https://www.tiktok.com/@creator/video/7301".to_string())
    );
    let m = extract_tiktok_metadata(d, "https://vm.tiktok.com/abc");
    assert_eq!(m.title, "TikTok video 7301");
    assert_eq!(m.thumbnail_url.as_deref(), Some("https://cover"));
    assert_eq!(m.duration_seconds, Some(15));
    assert_eq!(m.uploader.as_deref(), Some("creator"));
    assert_eq!(m.extractor.as_deref(), Some("TikWM"));
    assert_eq!(m.webpage_url, "https://www.tiktok.com/@creator/video/7301");

    let mut d = data("9");
    d.title = Some(" Dance ".to_string());
    d.cover = Some("c1".to_string());
    d.origin_cover = Some("c2".to_string());
    d.author = Some(TikwmAuthor { unique_id: None, nickname: Some(" Nick ".to_string()) });
    let m = extract_tiktok_metadata(d, "https://vm.tiktok.com/abc");
    assert_eq!(m.title, "Dance");
    assert_eq!(m.thumbnail_url.as_deref(), Some("c1"));
    assert_eq!(m.uploader.as_deref(), Some(" Nick "));
    assert_eq!(m.webpage_url, "https://vm.tiktok.com/abc");
}

#[test]
fn tikwm_answers_decide_between_stopping_and_retrying() {
    let ok = TikwmResponse { code: 0, msg: None, data: Some(data("1")) };
    assert_eq!(tikwm_attempt(0, ok), TikwmStep::Done(Ok(data("1"))));
    let empty = TikwmResponse { code: 0, msg: None, data: None };
    assert_eq!(
        tikwm_attempt(1, empty),
        TikwmStep::Done(Err("TikTok fallback returned success without data".to_string()))
    );
    let limited = TikwmResponse { code: -1, msg: Some("Free Api Limit: 1 request/second.".to_string()), data: None };
    assert_eq!(tikwm_attempt(0, limited), TikwmStep::Retry { sleep_millis: 1200 });
    let other = TikwmResponse { code: -1, msg: Some("Url parsing is failed!".to_string()), data: None };
    assert_eq!(tikwm_attempt(0, other), TikwmStep::Retry { sleep_millis: 0 });
    let last = TikwmResponse { code: -1, msg: None, data: None };
    assert_eq!(
        tikwm_attempt(1, last),
        TikwmStep::Done(Err("TikTok fallback failed: unknown fallback error".to_string()))
    );
}

#[test]
fn tikwm_request_url_carries_the_link() {
    let url = tiktok_fallback_request_url("https://www.tikwm.com/api/", "https://vm.tiktok.com/a b")
        .expect("the API URL parses");
    assert_eq!(url, "https://www.tikwm.com/api/?url=https%3A%2F%2Fvm.tiktok.com%2Fa+b");
    assert_eq!(
        tiktok_fallback_request_url("not a url", "x"),
        Err("invalid TIKTOK_FALLBACK_API_URL `not a url`".to_string())
    );
}

#[test]
fn plans_direct_tiktok_downloads() {
    let mut d = data("73/01");
    d.play = Some("https://play".to_string());
    let plan = tiktok_direct_plan(&d).expect("a media URL is present");
    assert_eq!(plan.media_url, "https://play");
    assert_eq!(plan.filename, "tiktok_73_01.mp4");
    assert_eq!(plan.part_filename, "tiktok_73_01.mp4.part");
    let mut d = data("1");
    d.play = Some("  ".to_string());
    assert_eq!(
        tiktok_direct_plan(&d),
        Err("TikTok fallback did not return a no-watermark media URL".to_string())
    );
}

#[test]
fn instagram_oembed_request_and_metadata() {
    let (code, url) = instagram_oembed_request("https://www.instagram.com/reel/DaWAZhQSSYQ/?igsh=test")
        .expect("the link has a shortcode");
    assert_eq!(code, "DaWAZhQSSYQ");
    assert_eq!(
        url,
        "https://i.instagram.com/api/v1/oembed/?url=https%3A%2F%2Fwww.instagram.com%2Fp%2FDaWAZhQSSYQ%2F"
    );
    assert_eq!(
        instagram_oembed_request("https://www.instagram.com/"),
        Err("failed to parse Instagram shortcode from URL".to_string())
    );
    let payload = InstagramOembedResponse { title: None, author_name: Some("someone".into()), thumbnail_url: Some("t".into()) };
    let m = extract_instagram_oembed_metadata(payload, "DaW", "https://www.instagram.com/p/DaW/");
    assert_eq!(m.title, "Instagram media DaW");
    assert_eq!(m.duration_seconds, None);
    assert_eq!(m.uploader.as_deref(), Some("someone"));
    assert_eq!(m.extractor.as_deref(), Some("InstagramOEmbed"));
    assert_eq!(m.webpage_url, "https://www.instagram.com/p/DaW/");
}

#[test]
fn chooses_fallbacks_by_provider_and_configuration() {
    let mut env = base_env();
    assert_eq!(metadata_fallback(&env, "tiktok"), Some(MetadataFallback::Tiktok));
    assert_eq!(metadata_fallback(&env, "instagram"), Some(MetadataFallback::InstagramOembed));
    assert_eq!(metadata_fallback(&env, "youtube"), None);
    assert!(direct_download_applies(&env, &record("tiktok", None)));
    assert!(!direct_download_applies(&env, &record("youtube", None)));
    env.tiktok_fallback_enabled = false;
    env.instagram_oembed_fallback_enabled = false;
    assert_eq!(metadata_fallback(&env, "tiktok"), None);
    assert_eq!(metadata_fallback(&env, "instagram"), None);
    assert!(!direct_download_applies(&env, &record("tiktok", None)));
    assert!(should_prefer_direct_download(&record("tiktok", Some("TikWM"))));
    assert!(!should_prefer_direct_download(&record("tiktok", Some("TikTok"))));
    assert!(!should_prefer_direct_download(&record("instagram", Some("TikWM"))));
}

#[test]
fn direct_downloads_stay_within_the_size_limit() {
    assert_eq!(check_content_length(None, 10), Ok(()));
    assert_eq!(check_content_length(Some(10), 10), Ok(()));
    assert_eq!(
        check_content_length(Some(11), 10),
        Err("fallback media exceeds the configured size limit of 10 bytes".to_string())
    );
    let mut received = 0;
    for chunk in [4u64, 4, 2] {
        received = accept_chunk(received, chunk, 10).expect("within the limit");
    }
    assert_eq!(received, 10);
    assert_eq!(
        accept_chunk(received, 1, 10),
        Err("fallback media exceeded the configured size limit of 10 bytes".to_string())
    );
    assert_eq!(finish_download(0), Err("fallback media URL returned an empty response".to_string()));
    assert_eq!(finish_download(3), Ok(()));
    assert_eq!(check_fallback_size(10, 10), Ok(()));
    assert!(check_fallback_size(11, 10).is_err());
    assert_eq!(public_filename("/tmp/x/tiktok_1.mp4"), Ok("tiktok_1.mp4".to_string()));
    assert_eq!(public_filename("/"), Err("fallback media file name is invalid".to_string()));
}

#[test]
fn direct_downloads_go_into_the_request_directory() {
    let env = base_env();
    let mut d = data("73/01");
    d.play = Some("https://cdn.example/v.mp4".to_string());
    let plan = tiktok_direct_plan(&d).expect("a media url");
    let target = tiktok_download_target(&env, 1, &plan);
    let dir = "/tmp/videodownloaderbackend/00000000-0000-0000-0000-000000000001";
    assert_eq!(target.media.temp_dir, dir);
    assert_eq!(target.media.filename, "tiktok_73_01.mp4");
    assert_eq!(target.media.path, format!("{dir}/tiktok_73_01.mp4"));
    assert_eq!(target.part_path, format!("{dir}/tiktok_73_01.mp4.part"));
    let again = direct_media(dir, &target.media.path).expect("named");
    assert_eq!(again, target.media);
    assert_eq!(direct_media(dir, "/"), Err("fallback media file name is invalid".to_string()));
}
