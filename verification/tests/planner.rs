use feedwatch::cache::CacheHeaders;
use feedwatch::config::HeaderVal;
use feedwatch::fetcher::{
    classify_status, next_fetch, parse_u64_digits, sat_add, FetchPlanInput, StatusClass,
};

fn empty() -> CacheHeaders {
    CacheHeaders { etag: None, last_modified: None }
}

#[test]
fn rate_limit_pause_uses_server_duration() {
    let p = next_fetch(
        1800,
        Some(FetchPlanInput::Retry { retry_after: Some(120), headers: empty() }),
        1000,
    );
    assert_eq!(p.time, 1121);
}

#[test]
fn rate_limit_pause_defaults_to_six_hours_plus_margin() {
    let p = next_fetch(
        1800,
        Some(FetchPlanInput::Retry { retry_after: None, headers: empty() }),
        1000,
    );
    assert_eq!(p.time, 1000 + 6 * 60 * 60 + 1);
}

#[test]
fn completed_attempt_waits_one_base_interval() {
    let headers = CacheHeaders { etag: Some("\"tag\"".to_string()), last_modified: Some(7) };
    let p = next_fetch(1800, Some(FetchPlanInput::WithCache { headers }), 1000);
    assert_eq!(p.time, 2800);
    assert_eq!(p.headers.etag.as_deref(), Some("\"tag\""));
    assert_eq!(p.headers.last_modified, Some(7));
}

#[test]
fn first_contact_gets_empty_validators() {
    let p = next_fetch(1800, None, 1000);
    assert_eq!(p.time, 2800);
    assert!(p.headers.etag.is_none());
    assert!(p.headers.last_modified.is_none());
    assert!(!p.is_elapsed(2799));
    assert!(p.is_elapsed(2800));
    assert!(p.is_elapsed(3000));
}

#[test]
fn planned_instants_clip_instead_of_overflowing() {
    assert_eq!(sat_add(2, 3), 5);
    assert_eq!(sat_add(u64::MAX, 1), u64::MAX);
    assert_eq!(sat_add(u64::MAX - 1, 1), u64::MAX);
    let p = next_fetch(u64::MAX, None, 5);
    assert_eq!(p.time, u64::MAX);
    let p = next_fetch(
        1800,
        Some(FetchPlanInput::Retry { retry_after: Some(u64::MAX), headers: empty() }),
        10,
    );
    assert_eq!(p.time, u64::MAX);
}

#[test]
fn rate_limit_status_wins_over_its_class() {
    assert_eq!(classify_status(429), StatusClass::RateLimit);
}

#[test]
fn status_classes() {
    assert_eq!(classify_status(304), StatusClass::NotModified);
    assert_eq!(classify_status(200), StatusClass::Fresh);
    assert_eq!(classify_status(302), StatusClass::Fresh);
    assert_eq!(classify_status(400), StatusClass::ClientError);
    assert_eq!(classify_status(404), StatusClass::ClientError);
    assert_eq!(classify_status(499), StatusClass::ClientError);
    assert_eq!(classify_status(500), StatusClass::ServerError);
    assert_eq!(classify_status(503), StatusClass::ServerError);
    assert_eq!(classify_status(599), StatusClass::ServerError);
}

#[test]
fn retry_header_parses_exactly_the_digit_strings() {
    assert_eq!(parse_u64_digits("120"), Some(120));
    assert_eq!(parse_u64_digits("0"), Some(0));
    assert_eq!(parse_u64_digits("007"), Some(7));
    assert_eq!(parse_u64_digits("18446744073709551615"), Some(u64::MAX));
    assert_eq!(parse_u64_digits("18446744073709551616"), None);
    assert_eq!(parse_u64_digits("99999999999999999999999"), None);
    assert_eq!(parse_u64_digits(""), None);
    assert_eq!(parse_u64_digits("12a"), None);
    assert_eq!(parse_u64_digits(" 120"), None);
    assert_eq!(parse_u64_digits("-5"), None);
    assert_eq!(parse_u64_digits("soon"), None);
}

#[test]
fn plan_input_hands_headers_back() {
    let headers = CacheHeaders { etag: Some("\"e\"".to_string()), last_modified: None };
    let got = FetchPlanInput::Retry { retry_after: Some(1), headers }.into_cache_headers();
    assert_eq!(got.etag.as_deref(), Some("\"e\""));
    let headers = CacheHeaders { etag: None, last_modified: Some(3) };
    let got = FetchPlanInput::WithCache { headers }.into_cache_headers();
    assert_eq!(got.last_modified, Some(3));
}

#[test]
fn header_val_carries_its_text() {
    let v = HeaderVal("secret-token".to_string());
    assert_eq!(v.0, "secret-token");
}
