use videodownloaderbackend::config::environment::EnvValue;
use videodownloaderbackend::service::fallbacks::instagram_shortcode;
use videodownloaderbackend::service::yt_dlp::{
    extract_downloaded_file_path, public_filename, resolve_ytdlp_command,
};
use videodownloaderbackend::text::{
    ascii_lowercase, decimal_i64, decimal_u64, split_on, str_contains, str_ends_with, str_starts_with,
    trim_str,
};

#[test]
fn decimal_text_matches_to_string() {
    for n in [0u64, 7, 10, 99, 100, 65535, 1_048_576, u64::MAX] {
        assert_eq!(decimal_u64(n), n.to_string());
    }
    for n in [0i64, -1, 42, -3600, i64::MAX, i64::MIN] {
        assert_eq!(decimal_i64(n), n.to_string());
    }
}

#[test]
fn decimal_text_reads_back_as_its_number() {
    for n in [0u64, 9, 10, 4096, u64::MAX] {
        assert_eq!(<u64 as EnvValue>::parse_value(&decimal_u64(n)), Some(n));
    }
    assert_eq!(<u16 as EnvValue>::parse_value(&decimal_u64(65535)), Some(65535));
}

#[test]
fn trimming_matches_str_trim_and_is_idempotent() {
    for s in ["", "   ", "  a b  ", "\t\nx\r\n", "\u{a0}y\u{3000}", "plain"] {
        assert_eq!(trim_str(s), s.trim());
        assert_eq!(trim_str(&trim_str(s)), trim_str(s));
    }
}

#[test]
fn string_helpers() {
    assert_eq!(ascii_lowercase("HeLLo-\u{c9}"), "hello-\u{c9}");
    assert!(str_contains("Sign in to confirm", "in to"));
    assert!(!str_contains("abc", "abcd"));
    assert!(str_ends_with("clip.mp4", ".mp4"));
    assert!(str_starts_with("clip.mp4", "clip"));
    let parts: Vec<String> = split_on(&"a/b//c".chars().collect::<Vec<_>>(), '/')
        .into_iter()
        .map(|p| p.into_iter().collect())
        .collect();
    assert_eq!(parts, vec!["a", "b", "", "c"]);
}

#[test]
fn urls_are_read_through_the_url_crate() {
    // The path segments come from the URL crate, which decodes nothing and
    // drops the query and the fragment.
    assert_eq!(
        instagram_shortcode("HTTPS://WWW.Instagram.com/reel/Ab_1?x=1#frag").as_deref(),
        Some("Ab_1")
    );
    assert_eq!(instagram_shortcode("no scheme here"), None);
    assert_eq!(instagram_shortcode("mailto:someone@example.com"), None);
}

#[test]
fn paths_are_read_component_by_component() {
    assert_eq!(public_filename("/tmp/dir/clip.unknown_video"), Ok("clip.mp4".to_string()));
    assert_eq!(public_filename("/"), Err("downloaded file name is invalid".to_string()));
    assert_eq!(resolve_ytdlp_command("yt-dlp", false), Ok("yt-dlp".to_string()));
    assert_eq!(resolve_ytdlp_command("/missing/bin/yt-dlp", false), Ok("yt-dlp".to_string()));
    assert_eq!(resolve_ytdlp_command("/missing/bin/yt-dlp", true), Ok("/missing/bin/yt-dlp".to_string()));
    assert_eq!(
        extract_downloaded_file_path(b"/tmp/dirx/clip.mp4\n", "/tmp/dir"),
        Err("yt-dlp reported an unexpected download path outside the temp dir: /tmp/dirx/clip.mp4"
            .to_string())
    );
    // Output that is not UTF-8 is read with replacement characters.
    assert_eq!(
        extract_downloaded_file_path(b"/tmp/dir/clip \xff.mp4\n\n", "/tmp/dir"),
        Ok("/tmp/dir/clip \u{fffd}.mp4".to_string())
    );
}
