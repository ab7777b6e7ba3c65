use videodownloaderbackend::config::environment::Environment;
use videodownloaderbackend::error::ApiErrorKind;
use videodownloaderbackend::net::ParsedUrl;
use videodownloaderbackend::service::providers::{detect_provider, matches_host};

fn base_vars() -> Vec<(String, String)> {
    [
        ("ALLOWED_ORIGINS", "https://app.example.com, https://admin.example.com"),
        ("APP_ENV", "test"),
        ("HOST", "127.0.0.1"),
        ("PORT", "8080"),
        ("PUBLIC_BASE_URL", "https://api.example.com"),
        ("RUST_LOG", "info"),
        ("DATABASE_URL", "postgres://localhost/videos"),
        ("DATABASE_MAX_CONNECTIONS", "10"),
        ("DATABASE_MIN_CONNECTIONS", "1"),
        ("DATABASE_ACQUIRE_TIMEOUT_SECONDS", "5"),
        ("DATABASE_RUN_MIGRATIONS", "true"),
        ("DOWNLOAD_TOKEN_SECRET", "SECRET-REDACTED"),
        ("DOWNLOAD_TOKEN_TTL_SECONDS", "-300"),
        ("MAX_URL_LENGTH", "2048"),
        ("MAX_DOWNLOAD_BYTES", "524288000"),
        ("MAX_VIDEO_DURATION_SECONDS", "3600"),
        ("UPSTREAM_CONNECT_TIMEOUT_SECONDS", "10"),
        ("UPSTREAM_REQUEST_TIMEOUT_SECONDS", "60"),
        ("UPSTREAM_MAX_REDIRECTS", "5"),
        ("UPSTREAM_USER_AGENT", "videodownloader/1.0"),
        ("STREAM_CHUNK_SIZE_BYTES", "65536"),
        ("YTDLP_BINARY_PATH", "/usr/local/bin/yt-dlp"),
        ("YTDLP_METADATA_TIMEOUT_SECONDS", "30"),
        ("YTDLP_DOWNLOAD_TIMEOUT_SECONDS", "600"),
        ("DOWNLOAD_RETENTION_SECONDS", "900"),
        ("RATE_LIMIT_REQUESTS_PER_MINUTE", "60"),
        ("TURNSTILE_SITE_KEY", "   "),
        ("ENABLE_TIKTOK", "true"),
        ("ENABLE_INSTAGRAM", "true"),
        ("ENABLE_YOUTUBE", "true"),
        ("ENABLE_TWITTER", "true"),
        ("ENABLE_FACEBOOK", "false"),
        ("ENABLE_PINTEREST", "true"),
        ("ENABLE_CAPCUT", "true"),
        ("ENABLE_TELEGRAM", "true"),
        ("ENABLE_SPOTIFY", "true"),
        ("ENABLE_SOUNDCLOUD", "true"),
        ("COOKIES_FILE_PATH", "/etc/cookies.txt"),
        ("FFMPEG_ENABLED", "true"),
        ("FFMPEG_BINARY_PATH", "ffmpeg"),
        ("TEMP_DIR", "/tmp/videodownloaderbackend"),
        ("TIKTOK_FALLBACK_ENABLED", "true"),
        ("TIKTOK_FALLBACK_API_URL", "https://www.tikwm.com/api/"),
        ("INSTAGRAM_OEMBED_FALLBACK_ENABLED", "true"),
    ]
    .iter()
    .map(|(k, v)| (k.to_string(), v.to_string()))
    .collect()
}

fn base_env() -> Environment {
    Environment::load(&base_vars()).expect("the base configuration should load")
}

/// The parts of `link` that `Url::parse` reads (its host taken as written).
fn parsed(link: &str) -> ParsedUrl {
    let (scheme, rest) = link.split_once("://").expect("a scheme");
    let host = rest.split(['/', '?', '#']).next().unwrap_or("");
    ParsedUrl {
        scheme: scheme.to_string(),
        host: if host.is_empty() { None } else { Some(host.to_string()) },
        path_segments: None,
        without_fragment: link.to_string(),
    }
}

fn detect(env: &Environment, link: &str) -> Result<&'static str, (ApiErrorKind, String, String)> {
    detect_provider(&parsed(link), env).map_err(|e| (e.kind, e.code, e.message))
}

#[test]
fn detects_each_provider_by_host() {
    let env = base_env();
    let cases = [
        ("https://www.tiktok.com/@user/video/7312345678901234567", "tiktok"),
        ("https://vm.tiktok.com/ZMabc/", "tiktok"),
        ("https://TikTok.com/@user", "tiktok"),
        ("https://www.youtube.com/watch?v=dQw4w9WgXcQ", "youtube"),
        ("https://youtu.be/dQw4w9WgXcQ", "youtube"),
        ("https://www.instagram.com/reel/DaWAZhQSSYQ/", "instagram"),
        ("https://x.com/user/status/1", "twitter"),
        ("https://mobile.twitter.com/user/status/1", "twitter"),
        ("https://www.pinterest.com/pin/123/", "pinterest"),
        ("https://pin.it/abc", "pinterest"),
        ("https://www.capcut.com/t/abc", "capcut"),
        ("https://t.me/channel/1", "telegram"),
        ("https://open.spotify.com/track/abc", "spotify"),
        ("https://soundcloud.com/artist/track", "soundcloud"),
    ];
    for (link, provider) in cases {
        assert_eq!(detect(&env, link), Ok(provider), "{link}");
    }
}

#[test]
fn refuses_disabled_and_unknown_providers() {
    let env = base_env();
    assert_eq!(
        detect(&env, "https://www.facebook.com/watch?v=1"),
        Err((
            ApiErrorKind::ServiceUnavailable,
            "service_unavailable".to_string(),
            "facebook support is disabled in this environment".to_string()
        ))
    );
    let unsupported = (
        ApiErrorKind::BadRequest,
        "bad_request".to_string(),
        "unsupported provider; supported providers are tiktok, youtube, instagram, twitter, facebook, pinterest, capcut, telegram, spotify, and soundcloud".to_string(),
    );
    assert_eq!(detect(&env, "https://example.com/video"), Err(unsupported.clone()));
    // A host that merely ends with a provider's name is not that provider's.
    assert_eq!(detect(&env, "https://notyoutube.com/watch"), Err(unsupported.clone()));
    assert_eq!(detect(&env, "https://faketiktok.com/@user"), Err(unsupported.clone()));
    assert_eq!(detect(&env, "file:///tmp/clip.mp4"), Err(unsupported));
}

#[test]
fn host_matching_requires_a_label_boundary() {
    let host = |s: &str| s.chars().collect::<Vec<char>>();
    assert!(matches_host(&host("youtube.com"), "youtube.com"));
    assert!(matches_host(&host("m.youtube.com"), "youtube.com"));
    assert!(!matches_host(&host("notyoutube.com"), "youtube.com"));
    assert!(!matches_host(&host("youtube.com.evil"), "youtube.com"));
    assert!(!matches_host(&host("com"), "youtube.com"));
}
