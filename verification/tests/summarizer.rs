use policy_tracker::config::{AiSummarizerConfig, Duration};
use policy_tracker::json::JsonValue;
use policy_tracker::summarizer::{
    extract_text, reply_outcome, nonzero_timeout, summary_step, AiSummarizer, RequestFailure, SummarizerError, SummarizerState, SummaryStep,
};

fn to_json(value: &serde_json::Value) -> JsonValue {
    match value {
        serde_json::Value::Null => JsonValue::Null,
        serde_json::Value::Bool(b) => JsonValue::Bool(*b),
        serde_json::Value::Number(n) => JsonValue::Number(n.to_string()),
        serde_json::Value::String(s) => JsonValue::Str(s.clone()),
        serde_json::Value::Array(items) => JsonValue::Array(items.iter().map(to_json).collect()),
        serde_json::Value::Object(members) => {
            JsonValue::Object(members.iter().map(|(k, v)| (k.clone(), to_json(v))).collect())
        }
    }
}

fn reply(body: &str) -> JsonValue {
    let value: serde_json::Value = serde_json::from_str(body).unwrap();
    to_json(&value)
}

fn config(timeout: u64) -> AiSummarizerConfig {
    AiSummarizerConfig {
        api_key: "key".to_owned(),
        base_url: "https://ai.example.test/v1//".to_owned(),
        model: "model".to_owned(),
        request_timeout: Duration::from_secs(timeout),
    }
}

#[test]
fn extracts_text_from_claude_response() {
    let result = extract_text(&reply(r#"{"content":[{"type":"text","text":" Summary "}]}"#));
    match result {
        Ok(summary) => assert_eq!(summary, "Summary"),
        Err(error) => panic!("a valid service reply should contain text: {error:?}"),
    }
}

#[test]
fn rejects_empty_timeout_and_missing_text() {
    assert!(nonzero_timeout(Duration::from_secs(0)).is_err());
    assert!(extract_text(&reply(r#"{"content":[]}"#)).is_err());
}

#[test]
fn the_first_text_block_is_used_and_blank_text_is_refused() {
    let mixed = reply(r#"{"content":[{"type":"tool_use","text":"no"},{"type":"text"},{"type":"text","text":"yes"},{"type":"text","text":"later"}]}"#);
    assert_eq!(extract_text(&mixed).unwrap(), "yes");
    let blank = reply(r#"{"content":[{"type":"text","text":"   "},{"type":"text","text":"later"}]}"#);
    assert!(matches!(extract_text(&blank), Err(SummarizerError::InvalidResponse)));
    assert!(matches!(extract_text(&reply(r#"{"content":"text"}"#)), Err(SummarizerError::InvalidResponse)));
}

#[test]
fn retries_only_transient_service_statuses() {
    assert!(SummarizerError::Service { status: 429 }.is_retryable());
    assert!(SummarizerError::Service { status: 503 }.is_retryable());
    assert!(!SummarizerError::Service { status: 400 }.is_retryable());
}

#[test]
fn disabled_summarizer_skips_requests() {
    let summarizer = match AiSummarizer::from_optional_config(None) {
        Ok(summarizer) => summarizer,
        Err(error) => panic!("disabled summarizer should be valid: {error:?}"),
    };

    assert!(!summarizer.is_enabled());
    assert!(summarizer.request_body("No request should be sent").is_none());
    assert!(summarizer.connect_timeout().is_none());
}

#[test]
fn configured_summarizer_posts_to_the_messages_endpoint() {
    let summarizer = AiSummarizer::from_config(&config(20)).unwrap();
    assert!(summarizer.is_enabled());
    match &summarizer.state {
        SummarizerState::Configured { endpoint, model, api_key, request_timeout, .. } => {
            assert_eq!(endpoint, "https://ai.example.test/v1/messages");
            assert_eq!(model, "model");
            assert_eq!(api_key, "key");
            assert_eq!(request_timeout.as_secs(), 20);
        }
        SummarizerState::Disabled => panic!("configured summarizer should be enabled"),
    }
    assert_eq!(summarizer.connect_timeout().map(|d| d.as_secs()), Some(5));
    assert_eq!(AiSummarizer::from_config(&config(3)).unwrap().connect_timeout().map(|d| d.as_secs()), Some(3));
    assert!(matches!(AiSummarizer::from_config(&config(0)), Err(SummarizerError::InvalidTimeout)));
}

#[test]
fn request_body_names_model_limit_and_prompt() {
    let summarizer = AiSummarizer::from_config(&config(20)).unwrap();
    let body = summarizer.request_body("Summarize").unwrap();
    assert_eq!(body.get_str("model"), Some("model"));
    assert!(matches!(body.get("max_tokens"), Some(JsonValue::Number(n)) if n == "600"));
    let messages = body.get_array("messages").unwrap();
    assert_eq!(messages.len(), 1);
    assert_eq!(messages[0].get_str("role"), Some("user"));
    assert_eq!(messages[0].get_str("content"), Some("Summarize"));
}

#[test]
fn summary_attempts_retry_temporary_failures_with_growing_delays() {
    let timeout = || {
        SummarizerError::Request(RequestFailure {
            message: "timed out".to_owned(),
            is_timeout: true,
            is_connect: false,
            is_request: false,
            is_body: false,
        })
    };
    assert!(matches!(summary_step(1, Err(timeout())), SummaryStep::RetryAfter(250)));
    assert!(matches!(summary_step(2, Err(timeout())), SummaryStep::RetryAfter(500)));
    assert!(matches!(summary_step(3, Err(timeout())), SummaryStep::Finished(Err(_))));
    assert!(matches!(
        summary_step(1, Err(SummarizerError::InvalidResponse)),
        SummaryStep::Finished(Err(SummarizerError::InvalidResponse))
    ));
    match summary_step(2, Ok("Done".to_owned())) {
        SummaryStep::Finished(Ok(Some(text))) => assert_eq!(text, "Done"),
        other => panic!("a summary should finish: {other:?}"),
    }
}

#[test]
fn replies_are_judged_by_status_then_by_body() {
    assert!(matches!(reply_outcome(503, "{}"), Err(SummarizerError::Service { status: 503 })));
    assert!(matches!(reply_outcome(200, "not json"), Err(SummarizerError::InvalidResponse)));
    assert!(matches!(reply_outcome(200, r#"{"content":[]}"#), Err(SummarizerError::InvalidResponse)));
    assert_eq!(reply_outcome(200, r#"{"content":[{"type":"text","text":"Short summary"}]}"#).unwrap(), "Short summary");
}

#[test]
fn summarizer_failures_are_reported_by_kind() {
    assert_eq!(SummarizerError::Service { status: 529 }.message(), "AI summarizer service returned 529 <unknown status code>");
    assert_eq!(SummarizerError::Service { status: 500 }.message(), "AI summarizer service returned 500 Internal Server Error");
    assert_eq!(SummarizerError::InvalidTimeout.message(), "AI summarizer timeout must be greater than zero");
    assert_eq!(SummarizerError::InvalidResponse.message(), "AI summarizer returned an invalid response");
    assert_eq!(SummarizerError::Client("no TLS".to_owned()).message(), "could not configure AI summarizer client: no TLS");
}
