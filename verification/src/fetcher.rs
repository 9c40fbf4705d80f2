//! Retrieval rules for configured sources: which URL to fetch and when to retry.
use vstd::prelude::*;

use crate::json::{get_array, json_str, JsonValue};
use crate::normalization::Source;
use crate::date::{decimal, push_decimal};
use crate::text::{append_str, chars_of, string_from};
use crate::web_url::{join_url, joined_url, result_view};

verus! {

/// Attempts made for one source document before giving up.
pub const MAX_FETCH_ATTEMPTS: u8 = 3;

/// The base delay between attempts, in milliseconds; attempt `n` waits `n` times this.
pub const RETRY_DELAY_MILLIS: u64 = 250;

/// HTTP statuses that signal a temporary failure: 408, 425, 429, 500, 502, 503, 504.
pub open spec fn retryable_status(status: u16) -> bool {
    status == 408 || status == 425 || status == 429 || status == 500 || status == 502 || status == 503 || status == 504
}

/// Whether an HTTP status signals a temporary failure worth retrying.
pub fn is_retryable_status(status: u16) -> (r: bool)
    ensures
        r == retryable_status(status),
{
    status == 408 || status == 425 || status == 429 || status == 500 || status == 502 || status == 503 || status == 504
}

/// What went wrong with one request, as far as the retry rule needs to know.
#[derive(Debug)]
pub enum FetchError {
    /// The request failed before a response arrived: its message and whether
    /// it timed out, could not connect, or failed while being sent.
    Request { message: String, is_timeout: bool, is_connect: bool, is_request: bool },
    /// The source answered with a status other than success.
    Status(u16),
}

/// The reason phrase `http::StatusCode::canonical_reason` gives for a status
/// code, nothing for a code without one or outside 100..=999.
pub uninterp spec fn canonical_reason(status: u16) -> Option<Seq<char>>;

/// Calls `reqwest::StatusCode::from_u16` and `StatusCode::canonical_reason`;
/// the contract names the result.
#[verifier::external_body]
fn status_reason(status: u16) -> (r: Option<&'static str>)
    ensures
        match r {
            Some(t) => canonical_reason(status) == Some(t@),
            None => canonical_reason(status) is None,
        },
{
    match reqwest::StatusCode::from_u16(status) {
        Ok(code) => code.canonical_reason(),
        Err(_) => None,
    }
}

/// A status as `http::StatusCode` displays it: the code, a space, and its
/// reason phrase or `<unknown status code>`.
pub open spec fn status_display(status: u16) -> Seq<char> {
    decimal(status as nat) + " "@ + match canonical_reason(status) {
        Some(reason) => reason,
        None => "<unknown status code>"@,
    }
}

/// The text of a status, as it appears in failure messages.
pub fn status_text(status: u16) -> (t: String)
    ensures
        t@ == status_display(status),
{
    let mut v: Vec<char> = Vec::new();
    push_decimal(&mut v, status as u64);
    append_str(&mut v, " ");
    match status_reason(status) {
        Some(reason) => append_str(&mut v, reason),
        None => append_str(&mut v, "<unknown status code>"),
    }
    assert(v@ =~= status_display(status));
    string_from(v.as_slice())
}

impl FetchError {
    /// The failure as reported: `request failed: ` and the client's message,
    /// or `source returned HTTP ` and the status.
    pub fn message(&self) -> (m: String)
        ensures
            m@ == match self {
                FetchError::Request { message, .. } => "request failed: "@ + message@,
                FetchError::Status(s) => "source returned HTTP "@ + status_display(*s),
            },
    {
        let mut v = match self {
            FetchError::Request { .. } => chars_of("request failed: "),
            FetchError::Status(_) => chars_of("source returned HTTP "),
        };
        match self {
            FetchError::Request { message, .. } => append_str(&mut v, message.as_str()),
            FetchError::Status(s) => {
                let t = status_text(*s);
                append_str(&mut v, t.as_str());
            },
        }
        string_from(v.as_slice())
    }

    /// Whether the failure is temporary: a timeout, a connection or request
    /// failure, or a retryable status.
    pub fn is_retryable(&self) -> (r: bool)
        ensures
            r == match self {
                FetchError::Request { is_timeout, is_connect, is_request, .. } => *is_timeout || *is_connect || *is_request,
                FetchError::Status(s) => retryable_status(*s),
            },
    {
        match self {
            FetchError::Request { is_timeout, is_connect, is_request, .. } => *is_timeout || *is_connect || *is_request,
            FetchError::Status(s) => is_retryable_status(*s),
        }
    }
}

/// After failed attempt `attempt` (counting from 1): wait `attempt` times the
/// base delay and try again when the failure is temporary and attempts
/// remain; give up otherwise.
pub open spec fn retry_delay(attempt: u8, retryable: bool) -> Option<u64> {
    if attempt < MAX_FETCH_ATTEMPTS && retryable {
        Some((RETRY_DELAY_MILLIS * attempt) as u64)
    } else {
        None
    }
}

/// The delay before the next attempt, in milliseconds, or nothing to give up.
pub fn next_attempt_delay(attempt: u8, retryable: bool) -> (d: Option<u64>)
    ensures
        d == retry_delay(attempt, retryable),
{
    if attempt < MAX_FETCH_ATTEMPTS && retryable {
        Some(RETRY_DELAY_MILLIS * attempt as u64)
    } else {
        None
    }
}

/// Attempts stop by the third: no delay is ever granted after it.
pub proof fn lemma_attempts_bounded(attempt: u8, retryable: bool)
    ensures
        attempt >= MAX_FETCH_ATTEMPTS ==> retry_delay(attempt, retryable) is None,
        !retryable ==> retry_delay(attempt, retryable) is None,
{
}

/// The first configured start path, or the empty path.
pub open spec fn start_path(crawl_config: JsonValue) -> Seq<char> {
    match get_array(crawl_config, "start_paths"@) {
        Some(paths) => if paths.len() > 0 && json_str(paths[0]) is Some {
            json_str(paths[0]).unwrap()
        } else {
            Seq::empty()
        },
        None => Seq::empty(),
    }
}

/// The URL fetched for a source: its base URL joined with the first
/// configured start path, or the parse error's message.
pub fn source_fetch_url(source: &Source) -> (r: Result<String, String>)
    ensures
        result_view(r) == joined_url(source.base_url@, start_path(source.crawl_config)),
{
    let empty = "";
    proof {
        reveal_strlit("");
    }
    assert(empty@ =~= Seq::<char>::empty());
    let path: &str = match source.crawl_config.get_array("start_paths") {
        Some(paths) => {
            if paths.len() > 0 {
                match paths[0].as_str() {
                    Some(p) => p,
                    None => empty,
                }
            } else {
                empty
            }
        },
        None => empty,
    };
    assert(path@ == start_path(source.crawl_config));
    join_url(source.base_url.as_str(), path)
}

/// Whether an HTTP status is a success (2xx).
pub open spec fn success_status(status: u16) -> bool {
    200 <= status && status <= 299
}

/// How a response status ends a fetch: nothing for success, the status as
/// the failure otherwise.
pub fn status_failure(status: u16) -> (r: Option<FetchError>)
    ensures
        success_status(status) ==> r is None,
        !success_status(status) ==> r == Some(FetchError::Status(status)),
{
    if 200 <= status && status <= 299 {
        None
    } else {
        Some(FetchError::Status(status))
    }
}

/// The media type recorded for a fetched document: the response's
/// `Content-Type` text, or `application/octet-stream` when it has none.
pub fn recorded_content_type(header: Option<&str>) -> (t: String)
    ensures
        t@ == match header {
            Some(h) => h@,
            None => "application/octet-stream"@,
        },
{
    match header {
        Some(h) => h.to_owned(),
        None => "application/octet-stream".to_owned(),
    }
}

} // verus!
