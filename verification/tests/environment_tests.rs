use videodownloaderbackend::config::environment::{
    read_optional_var, read_parse, read_var, EnvError, EnvValue, Environment,
};

fn base_vars() -> Vec<(String, String)> {
    [
        ("ALLOWED_ORIGINS", "https://app.example.com, https://admin.example.com"),
        ("APP_ENV", "test"),
        ("HOST", "127.0.0.1"),
        ("PORT", "8080"),
        ("PUBLIC_BASE_URL", "https://api.example.com"),
        ("RUST_LOG", "info"),
        ("DATABASE_URL", "postgres://localhost/videos"),
        ("DATABASE_MAX_CONNECTIONS", "10"),
        ("DATABASE_MIN_CONNECTIONS", "1"),
        ("DATABASE_ACQUIRE_TIMEOUT_SECONDS", "5"),
        ("DATABASE_RUN_MIGRATIONS", "true"),
        ("DOWNLOAD_TOKEN_SECRET", "SECRET-REDACTED"),
        ("DOWNLOAD_TOKEN_TTL_SECONDS", "-300"),
        ("MAX_URL_LENGTH", "2048"),
        ("MAX_DOWNLOAD_BYTES", "524288000"),
        ("MAX_VIDEO_DURATION_SECONDS", "3600"),
        ("UPSTREAM_CONNECT_TIMEOUT_SECONDS", "10"),
        ("UPSTREAM_REQUEST_TIMEOUT_SECONDS", "60"),
        ("UPSTREAM_MAX_REDIRECTS", "5"),
        ("UPSTREAM_USER_AGENT", "videodownloader/1.0"),
        ("STREAM_CHUNK_SIZE_BYTES", "65536"),
        ("YTDLP_BINARY_PATH", "/usr/local/bin/yt-dlp"),
        ("YTDLP_METADATA_TIMEOUT_SECONDS", "30"),
        ("YTDLP_DOWNLOAD_TIMEOUT_SECONDS", "600"),
        ("DOWNLOAD_RETENTION_SECONDS", "900"),
        ("RATE_LIMIT_REQUESTS_PER_MINUTE", "60"),
        ("TURNSTILE_SITE_KEY", "   "),
        ("ENABLE_TIKTOK", "true"),
        ("ENABLE_INSTAGRAM", "true"),
        ("ENABLE_YOUTUBE", "true"),
        ("ENABLE_TWITTER", "true"),
        ("ENABLE_FACEBOOK", "false"),
        ("ENABLE_PINTEREST", "true"),
        ("ENABLE_CAPCUT", "true"),
        ("ENABLE_TELEGRAM", "true"),
        ("ENABLE_SPOTIFY", "true"),
        ("ENABLE_SOUNDCLOUD", "true"),
        ("COOKIES_FILE_PATH", "/etc/cookies.txt"),
        ("FFMPEG_ENABLED", "true"),
        ("FFMPEG_BINARY_PATH", "ffmpeg"),
        ("TEMP_DIR", "/tmp/videodownloaderbackend"),
        ("TIKTOK_FALLBACK_ENABLED", "true"),
        ("TIKTOK_FALLBACK_API_URL", "https://www.tikwm.com/api/"),
        ("INSTAGRAM_OEMBED_FALLBACK_ENABLED", "true"),
    ]
    .iter()
    .map(|(k, v)| (k.to_string(), v.to_string()))
    .collect()
}

fn base_env() -> Environment {
    Environment::load(&base_vars()).expect("the base configuration should load")
}

fn with(key: &str, value: Option<&str>) -> Vec<(String, String)> {
    let mut vars: Vec<(String, String)> = base_vars().into_iter().filter(|(k, _)| k != key).collect();
    if let Some(v) = value {
        vars.push((key.to_string(), v.to_string()));
    }
    vars
}

#[test]
fn loads_every_setting() {
    let env = base_env();
    assert_eq!(env.cors_allowed_origins, vec!["https://app.example.com", "https://admin.example.com"]);
    assert_eq!(env.port, 8080);
    assert_eq!(env.download_token_ttl_seconds, -300);
    assert_eq!(env.max_download_bytes, 524_288_000);
    assert_eq!(env.max_url_length, 2048);
    assert!(env.database_run_migrations);
    assert!(!env.enable_facebook);
    assert_eq!(env.turnstile_site_key, None);
    assert_eq!(env.turnstile_secret_key, None);
    assert_eq!(env.cookies_file_path.as_deref(), Some("/etc/cookies.txt"));
    assert_eq!(env.ytdlp_binary_path, "/usr/local/bin/yt-dlp");
    assert_eq!(env.temp_dir, "/tmp/videodownloaderbackend");
    assert_eq!(env.tiktok_fallback_api_url, "https://www.tikwm.com/api/");
}

#[test]
fn reports_the_first_missing_or_invalid_setting() {
    assert_eq!(
        Environment::load(&with("ALLOWED_ORIGINS", None)).unwrap_err(),
        EnvError::Missing { key: "ALLOWED_ORIGINS".to_string() }
    );
    assert_eq!(
        Environment::load(&with("ALLOWED_ORIGINS", Some(" , ,"))).unwrap_err(),
        EnvError::NoAllowedOrigins
    );
    assert_eq!(
        Environment::load(&with("PORT", Some("80a"))).unwrap_err(),
        EnvError::Invalid { key: "PORT".to_string(), value: "80a".to_string() }
    );
    // HOST comes before PORT, so it is reported first.
    let mut vars = with("PORT", Some("99999"));
    vars.retain(|(k, _)| k != "HOST");
    assert_eq!(Environment::load(&vars).unwrap_err(), EnvError::Missing { key: "HOST".to_string() });
    assert_eq!(
        Environment::load(&with("ENABLE_TIKTOK", Some("yes"))).unwrap_err(),
        EnvError::Invalid { key: "ENABLE_TIKTOK".to_string(), value: "yes".to_string() }
    );
    assert_eq!(
        Environment::load(&with("TEMP_DIR", None)).unwrap_err(),
        EnvError::Missing { key: "TEMP_DIR".to_string() }
    );
}

#[test]
fn optional_settings_may_be_absent_or_blank() {
    let env = Environment::load(&with("COOKIES_FILE_PATH", None)).expect("optional");
    assert_eq!(env.cookies_file_path, None);
    let vars = with("TURNSTILE_SECRET_KEY", Some(" key "));
    assert_eq!(read_optional_var(&vars, "TURNSTILE_SECRET_KEY"), Some(" key ".to_string()));
    assert_eq!(read_optional_var(&vars, "TURNSTILE_SITE_KEY"), None);
}

#[test]
fn the_first_occurrence_of_a_variable_counts() {
    let vars = vec![("A".to_string(), "1".to_string()), ("A".to_string(), "2".to_string())];
    assert_eq!(read_var(&vars, "A"), Ok("1".to_string()));
    assert_eq!(read_var(&vars, "B"), Err(EnvError::Missing { key: "B".to_string() }));
    assert_eq!(read_parse::<u16>(&vars, "A"), Ok(1));
}

#[test]
fn parses_numbers_as_str_parse_does() {
    for text in ["0", "+7", "65535", "007", "1", "-1", "65536", "", "+", "1_0", " 1", "-0", "abc"] {
        assert_eq!(<u16 as EnvValue>::parse_value(text), text.parse::<u16>().ok(), "u16 {text:?}");
        assert_eq!(<u32 as EnvValue>::parse_value(text), text.parse::<u32>().ok(), "u32 {text:?}");
        assert_eq!(<u64 as EnvValue>::parse_value(text), text.parse::<u64>().ok(), "u64 {text:?}");
        assert_eq!(<usize as EnvValue>::parse_value(text), text.parse::<usize>().ok(), "usize {text:?}");
        assert_eq!(<i64 as EnvValue>::parse_value(text), text.parse::<i64>().ok(), "i64 {text:?}");
    }
    for text in [
        "18446744073709551615",
        "18446744073709551616",
        "9223372036854775807",
        "9223372036854775808",
        "-9223372036854775808",
        "-9223372036854775809",
        "-+1",
        "+-1",
        "-",
    ] {
        assert_eq!(<u64 as EnvValue>::parse_value(text), text.parse::<u64>().ok(), "u64 {text:?}");
        assert_eq!(<i64 as EnvValue>::parse_value(text), text.parse::<i64>().ok(), "i64 {text:?}");
    }
    for text in ["true", "false", "True", " true", "1", ""] {
        assert_eq!(<bool as EnvValue>::parse_value(text), text.parse::<bool>().ok(), "bool {text:?}");
    }
}

#[test]
fn provider_fallback_settings_are_optional() {
    let mut vars = base_vars();
    vars.retain(|(k, _)| {
        k != "TIKTOK_FALLBACK_ENABLED"
            && k != "TIKTOK_FALLBACK_API_URL"
            && k != "INSTAGRAM_OEMBED_FALLBACK_ENABLED"
    });
    let env = Environment::load(&vars).expect("the fallback settings are optional");
    assert!(env.tiktok_fallback_enabled);
    assert!(env.instagram_oembed_fallback_enabled);
    assert_eq!(env.tiktok_fallback_api_url, "https://www.tikwm.com/api/");

    let env = Environment::load(&with("TIKTOK_FALLBACK_ENABLED", Some("false"))).expect("loads");
    assert!(!env.tiktok_fallback_enabled);
    // A value that is not a switch falls back to the default instead of failing.
    let env = Environment::load(&with("INSTAGRAM_OEMBED_FALLBACK_ENABLED", Some("yes"))).expect("loads");
    assert!(env.instagram_oembed_fallback_enabled);
    let env = Environment::load(&with("TIKTOK_FALLBACK_API_URL", Some("  "))).expect("loads");
    assert_eq!(env.tiktok_fallback_api_url, "https://www.tikwm.com/api/");
    let env = Environment::load(&with("TIKTOK_FALLBACK_API_URL", Some("https://tikwm.example/api"))).expect("loads");
    assert_eq!(env.tiktok_fallback_api_url, "https://tikwm.example/api");
}
