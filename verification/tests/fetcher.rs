use policy_tracker::domain::{Region, SourceCategory};
use policy_tracker::fetcher::{
    is_retryable_status, next_attempt_delay, recorded_content_type, source_fetch_url, status_failure, status_text,
    FetchError,
};
use policy_tracker::json::JsonValue;
use policy_tracker::normalization::Source;

fn source(base_url: &str, crawl_config: JsonValue) -> Source {
    Source {
        id: 1,
        region: Region::UnitedStates,
        category: SourceCategory::Policy,
        agency: "Example agency".to_owned(),
        base_url: base_url.to_owned(),
        crawl_config,
        enabled: true,
    }
}

#[test]
fn fetch_url_uses_the_first_configured_start_path() {
    let source = source(
        "https://example.gov",
        JsonValue::Object(vec![(
            "start_paths".to_owned(),
            JsonValue::Array(vec![JsonValue::Str("/policy/feed".to_owned())]),
        )]),
    );

    assert_eq!(source_fetch_url(&source).unwrap().as_str(), "https://example.gov/policy/feed");
}

#[test]
fn fetch_url_without_start_paths_is_the_base_url() {
    let plain = source("https://example.gov/root/", JsonValue::Object(Vec::new()));
    assert_eq!(source_fetch_url(&plain).unwrap(), "https://example.gov/root/");
    let relative = source(
        "https://example.gov/a/b",
        JsonValue::Object(vec![(
            "start_paths".to_owned(),
            JsonValue::Array(vec![JsonValue::Str("c".to_owned()), JsonValue::Str("d".to_owned())]),
        )]),
    );
    assert_eq!(source_fetch_url(&relative).unwrap(), "https://example.gov/a/c");
    let broken = source("not a url", JsonValue::Object(Vec::new()));
    assert!(source_fetch_url(&broken).is_err());
}

#[test]
fn temporary_http_responses_are_retried_but_bad_requests_are_not() {
    assert!(is_retryable_status(503));
    assert!(is_retryable_status(429));
    assert!(!is_retryable_status(400));
    assert!(!is_retryable_status(404));
}

#[test]
fn retries_wait_longer_each_time_and_stop_after_the_third_attempt() {
    assert_eq!(next_attempt_delay(1, true), Some(250));
    assert_eq!(next_attempt_delay(2, true), Some(500));
    assert_eq!(next_attempt_delay(3, true), None);
    assert_eq!(next_attempt_delay(1, false), None);
    let timeout = FetchError::Request { message: "timed out".to_owned(), is_timeout: true, is_connect: false, is_request: false };
    assert!(timeout.is_retryable());
    let body = FetchError::Request { message: "decode".to_owned(), is_timeout: false, is_connect: false, is_request: false };
    assert!(!body.is_retryable());
    assert!(FetchError::Status(502).is_retryable());
    assert!(!FetchError::Status(401).is_retryable());
}

#[test]
fn responses_outside_2xx_fail_with_their_status() {
    assert!(status_failure(200).is_none());
    assert!(status_failure(204).is_none());
    assert!(matches!(status_failure(301), Some(FetchError::Status(301))));
    assert!(matches!(status_failure(503), Some(FetchError::Status(503))));
    assert_eq!(recorded_content_type(Some("text/html")), "text/html");
    assert_eq!(recorded_content_type(None), "application/octet-stream");
}

#[test]
fn statuses_read_as_http_displays_them() {
    assert_eq!(status_text(503), "503 Service Unavailable");
    assert_eq!(status_text(404), "404 Not Found");
    assert_eq!(status_text(799), "799 <unknown status code>");
    assert_eq!(FetchError::Status(429).message(), "source returned HTTP 429 Too Many Requests");
    let request = FetchError::Request { message: "connection refused".to_owned(), is_timeout: false, is_connect: true, is_request: false };
    assert_eq!(request.message(), "request failed: connection refused");
}
