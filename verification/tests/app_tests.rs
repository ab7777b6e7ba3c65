use videodownloaderbackend::app::{cors_origins, health_report, CorsOrigins};

fn strings(items: &[&str]) -> Vec<String> {
    items.iter().map(|s| s.to_string()).collect()
}

#[test]
fn a_star_allows_any_origin() {
    assert_eq!(cors_origins(&strings(&["https://a.example.com", "*"])), Ok(CorsOrigins::Any));
    // The star wins even over an origin that is not a valid header value.
    assert_eq!(cors_origins(&strings(&["bad\norigin", "*"])), Ok(CorsOrigins::Any));
}

#[test]
fn listed_origins_are_kept_in_order() {
    let origins = strings(&["https://a.example.com", "https://b.example.com"]);
    assert_eq!(cors_origins(&origins), Ok(CorsOrigins::List(origins.clone())));
}

#[test]
fn the_first_invalid_origin_is_reported() {
    assert_eq!(
        cors_origins(&strings(&["https://a.example.com", "bad\norigin", "also\tbad\u{7f}"])),
        Err("invalid ALLOWED_ORIGINS value `bad\norigin`".to_string())
    );
}

#[test]
fn health_reflects_the_database() {
    let ok = health_report(true);
    assert_eq!((ok.status_code, ok.status.as_str()), (200, "ok"));
    let degraded = health_report(false);
    assert_eq!((degraded.status_code, degraded.status.as_str()), (503, "degraded"));
}
