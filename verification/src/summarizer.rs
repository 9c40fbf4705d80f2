//! Settings, requests and replies of the AI summarization service.
use vstd::prelude::*;

use crate::config::{AiSummarizerConfig, Duration};
use crate::json::{get_array, get_str, nonblank, nonblank_str, json_str, JsonValue};
use crate::text::{append_str, chars_of, strip_char_end, strip_end_chars, string_from};
use crate::fetcher::retryable_status;
use crate::json_codec::{parse_json, parsed_json};

verus! {

/// The `anthropic-version` header value sent with every request.
pub const ANTHROPIC_VERSION: &'static str = "2023-06-01";

/// The most tokens a summary may use.
pub const MAX_SUMMARY_TOKENS: u32 = 600;

/// Attempts made for one summary before giving up.
pub const MAX_SUMMARY_ATTEMPTS: u8 = 3;

/// The base delay between attempts, in milliseconds; attempt `n` waits `n` times this.
pub const SUMMARY_RETRY_DELAY_MILLIS: u64 = 250;

/// The longest connection setup allowed, in seconds.
pub const MAX_CONNECT_SECONDS: u64 = 5;

/// A request that failed before a response arrived: its message and what kind of failure it was.
#[derive(Debug)]
pub struct RequestFailure {
    pub message: String,
    pub is_timeout: bool,
    pub is_connect: bool,
    pub is_request: bool,
    pub is_body: bool,
}

/// A summarizer client could not complete a request or parse a response.
#[derive(Debug)]
pub enum SummarizerError {
    /// The HTTP client could not be configured; its message.
    Client(String),
    /// The configured timeout is zero.
    InvalidTimeout,
    /// The request failed before a response arrived.
    Request(RequestFailure),
    /// The service answered with a status other than success.
    Service { status: u16 },
    /// The reply held no text.
    InvalidResponse,
}

/// Whether a failure is temporary: a timeout, a connection, request or body
/// failure, or a retryable service status.
pub open spec fn retryable_failure(e: SummarizerError) -> bool {
    match e {
        SummarizerError::Request(f) => f.is_timeout || f.is_connect || f.is_request || f.is_body,
        SummarizerError::Service { status } => retryable_status(status),
        _ => false,
    }
}

/// The failure as reported.
pub open spec fn summarizer_error_text(e: SummarizerError) -> Seq<char> {
    match e {
        SummarizerError::Client(m) => "could not configure AI summarizer client: "@ + m@,
        SummarizerError::InvalidTimeout => "AI summarizer timeout must be greater than zero"@,
        SummarizerError::Request(f) => "AI summarizer request failed: "@ + f.message@,
        SummarizerError::Service { status } => "AI summarizer service returned "@ + crate::fetcher::status_display(status),
        SummarizerError::InvalidResponse => "AI summarizer returned an invalid response"@,
    }
}

impl SummarizerError {
    /// The failure as reported in logs and run records.
    pub fn message(&self) -> (m: String)
        ensures
            m@ == summarizer_error_text(*self),
    {
        match self {
            SummarizerError::Client(detail) => {
                let mut v = chars_of("could not configure AI summarizer client: ");
                append_str(&mut v, detail.as_str());
                string_from(v.as_slice())
            },
            SummarizerError::InvalidTimeout => "AI summarizer timeout must be greater than zero".to_owned(),
            SummarizerError::Request(f) => {
                let mut v = chars_of("AI summarizer request failed: ");
                append_str(&mut v, f.message.as_str());
                string_from(v.as_slice())
            },
            SummarizerError::Service { status } => {
                let mut v = chars_of("AI summarizer service returned ");
                let t = crate::fetcher::status_text(*status);
                append_str(&mut v, t.as_str());
                string_from(v.as_slice())
            },
            SummarizerError::InvalidResponse => "AI summarizer returned an invalid response".to_owned(),
        }
    }

    /// Whether the failure is temporary: a timeout, a connection, request or
    /// body failure, or a retryable service status.
    pub fn is_retryable(&self) -> (r: bool)
        ensures
            r == retryable_failure(*self),
    {
        match self {
            SummarizerError::Request(f) => f.is_timeout || f.is_connect || f.is_request || f.is_body,
            SummarizerError::Service { status } => crate::fetcher::is_retryable_status(*status),
            _ => false,
        }
    }
}

/// A request timeout, refused when zero.
pub fn nonzero_timeout(timeout: Duration) -> (r: Result<Duration, SummarizerError>)
    ensures
        timeout.secs == 0 ==> r matches Err(SummarizerError::InvalidTimeout),
        timeout.secs != 0 ==> r == Ok::<Duration, SummarizerError>(timeout),
{
    if timeout.is_zero() {
        Err(SummarizerError::InvalidTimeout)
    } else {
        Ok(timeout)
    }
}

/// The text of a content block whose `type` is `text`.
pub open spec fn text_block(block: JsonValue) -> Option<Seq<char>> {
    if get_str(block, "type"@) == Some("text"@) {
        get_str(block, "text"@)
    } else {
        None
    }
}

/// The text of the first text block that has one.
pub open spec fn first_text_block(blocks: Seq<JsonValue>) -> Option<Seq<char>>
    decreases blocks.len(),
{
    if blocks.len() == 0 {
        None
    } else {
        match text_block(blocks[0]) {
            Some(t) => Some(t),
            None => first_text_block(blocks.drop_first()),
        }
    }
}

/// The reply's summary: the first text block's text, trimmed, when not blank.
pub open spec fn reply_text(response: JsonValue) -> Option<Seq<char>> {
    match get_array(response, "content"@) {
        Some(blocks) => nonblank(first_text_block(blocks)),
        None => None,
    }
}

/// Reads the summary out of a service reply.
pub fn extract_text(response: &JsonValue) -> (r: Result<String, SummarizerError>)
    ensures
        match r {
            Ok(t) => reply_text(*response) == Some(t@),
            Err(e) => reply_text(*response) is None && e is InvalidResponse,
        },
{
    let blocks = match response.get_array("content") {
        Some(b) => b,
        None => {
            return Err(SummarizerError::InvalidResponse);
        },
    };
    let mut i: usize = 0;
    assert(blocks@.skip(0) =~= blocks@);
    while i < blocks.len()
        invariant
            i <= blocks@.len(),
            get_array(*response, "content"@) == Some(blocks@),
            first_text_block(blocks@) == first_text_block(blocks@.skip(i as int)),
        decreases blocks.len() - i,
    {
        assert(blocks@.skip(i as int)[0] == blocks@[i as int]);
        assert(blocks@.skip(i as int).drop_first() =~= blocks@.skip(i + 1));
        let is_text = match blocks[i].get_str("type") {
            Some(t) => crate::text::str_eq(t, "text"),
            None => false,
        };
        if is_text {
            match blocks[i].get_str("text") {
                Some(t) => {
                    return match nonblank_str(t) {
                        Some(s) => Ok(s),
                        None => Err(SummarizerError::InvalidResponse),
                    };
                },
                None => {},
            }
        }
        i = i + 1;
    }
    Err(SummarizerError::InvalidResponse)
}

#[verifier::external_type_specification]
#[verifier::external_body]
pub struct ExHttpClient(reqwest::Client);

/// Calls reqwest's `Client::builder`, then `connect_timeout` with the first
/// duration, `timeout` with the second, and `build`; the build error's
/// message on failure. Whether building succeeds depends on the machine (its
/// TLS and resolver setup), so nothing is promised of the outcome.
#[verifier::external_body]
fn http_client(connect_timeout: Duration, request_timeout: Duration) -> Result<reqwest::Client, String> {
    reqwest::Client::builder()
        .connect_timeout(std::time::Duration::from_secs(connect_timeout.secs))
        .timeout(std::time::Duration::from_secs(request_timeout.secs))
        .build()
        .map_err(|error| error.to_string())
}

/// An HTTP client together with the timeouts it was built with. It is made
/// only by `HttpClient::build`, which hands exactly these timeouts to the
/// builder.
pub struct HttpClient {
    client: reqwest::Client,
    connect_timeout: Ghost<Duration>,
    request_timeout: Ghost<Duration>,
}

impl HttpClient {
    /// The connection timeout the client was built with.
    pub closed spec fn built_connect_timeout(&self) -> Duration {
        self.connect_timeout@
    }

    /// The whole-request timeout the client was built with.
    pub closed spec fn built_request_timeout(&self) -> Duration {
        self.request_timeout@
    }

    /// Builds a client with the given connection and request timeouts, or
    /// reports the build error's message.
    pub fn build(connect_timeout: Duration, request_timeout: Duration) -> (r: Result<HttpClient, String>)
        ensures
            r matches Ok(c) ==> c.built_connect_timeout() == connect_timeout && c.built_request_timeout() == request_timeout,
    {
        match http_client(connect_timeout, request_timeout) {
            Ok(client) => Ok(HttpClient { client, connect_timeout: Ghost(connect_timeout), request_timeout: Ghost(request_timeout) }),
            Err(message) => Err(message),
        }
    }

    /// The client, for sending requests.
    pub fn client(&self) -> &reqwest::Client {
        &self.client
    }
}

/// Whether summaries are requested, and from where.
pub enum SummarizerState {
    Disabled,
    Configured { client: HttpClient, api_key: String, endpoint: String, model: String, request_timeout: Duration },
}

/// Sends policy-change prompts to the configured AI service.
pub struct AiSummarizer {
    pub state: SummarizerState,
}

/// The messages endpoint under a base URL: trailing slashes dropped, `/messages` added.
pub open spec fn messages_endpoint(base_url: Seq<char>) -> Seq<char> {
    strip_char_end(base_url, '/') + "/messages"@
}

/// A summarizer state configured from `config`: its key, model and timeout,
/// the messages endpoint under its base URL, and a client built with that
/// timeout for whole requests and at most five seconds for connecting.
pub open spec fn configured_from(state: SummarizerState, config: AiSummarizerConfig) -> bool {
    match state {
        SummarizerState::Configured { client, api_key, endpoint, model, request_timeout } => {
            &&& api_key@ == config.api_key@
            &&& endpoint@ == messages_endpoint(config.base_url@)
            &&& model@ == config.model@
            &&& request_timeout == config.request_timeout
            &&& client.built_request_timeout() == config.request_timeout
            &&& client.built_connect_timeout() == Duration {
                secs: if config.request_timeout.secs <= MAX_CONNECT_SECONDS {
                    config.request_timeout.secs
                } else {
                    MAX_CONNECT_SECONDS
                },
            }
        },
        SummarizerState::Disabled => false,
    }
}

/// A request body naming `model`, the summary token limit, and `prompt` as the one user message.
pub open spec fn summary_request(b: JsonValue, model: Seq<char>, prompt: Seq<char>) -> bool {
    &&& get_str(b, "model"@) == Some(model)
    &&& match crate::json::json_get(b, "max_tokens"@) {
        Some(JsonValue::Number(n)) => n@ == "600"@,
        _ => false,
    }
    &&& match crate::json::json_get(b, "messages"@) {
        Some(JsonValue::Array(ms)) => {
            &&& ms@.len() == 1
            &&& get_str(ms@[0], "role"@) == Some("user"@)
            &&& get_str(ms@[0], "content"@) == Some(prompt)
        },
        _ => false,
    }
}

impl AiSummarizer {
    /// Builds a configured summarizer with bounded connection and request
    /// timeouts: a zero timeout is refused; otherwise the HTTP client is
    /// built, and a failure to build it is reported.
    pub fn from_config(config: &AiSummarizerConfig) -> (r: Result<AiSummarizer, SummarizerError>)
        ensures
            match r {
                Ok(s) => config.request_timeout.secs != 0 && configured_from(s.state, *config),
                Err(e) => if config.request_timeout.secs == 0 {
                    e is InvalidTimeout
                } else {
                    e is Client
                },
            },
    {
        AiSummarizer::from_optional_config(Some(config))
    }

    /// Builds either a configured summarizer or an explicitly disabled one.
    pub fn from_optional_config(config: Option<&AiSummarizerConfig>) -> (r: Result<AiSummarizer, SummarizerError>)
        ensures
            match config {
                None => r matches Ok(s) && s.state is Disabled,
                Some(c) => match r {
                    Ok(s) => c.request_timeout.secs != 0 && configured_from(s.state, *c),
                    Err(e) => if c.request_timeout.secs == 0 {
                        e is InvalidTimeout
                    } else {
                        e is Client
                    },
                },
            },
    {
        let config = match config {
            Some(c) => c,
            None => {
                return Ok(AiSummarizer { state: SummarizerState::Disabled });
            },
        };
        let request_timeout = match nonzero_timeout(config.request_timeout) {
            Ok(t) => t,
            Err(e) => {
                return Err(e);
            },
        };
        let client = match HttpClient::build(request_timeout.min(Duration::from_secs(MAX_CONNECT_SECONDS)), request_timeout) {
            Ok(c) => c,
            Err(message) => {
                return Err(SummarizerError::Client(message));
            },
        };
        let base = chars_of(config.base_url.as_str());
        let mut endpoint = strip_end_chars(base.as_slice(), '/');
        append_str(&mut endpoint, "/messages");
        Ok(
            AiSummarizer {
                state: SummarizerState::Configured {
                    client,
                    api_key: config.api_key.clone(),
                    endpoint: string_from(endpoint.as_slice()),
                    model: config.model.clone(),
                    request_timeout,
                },
            },
        )
    }

    /// Whether requests will be sent to an AI service.
    pub fn is_enabled(&self) -> (r: bool)
        ensures
            r == (self.state is Configured),
    {
        match self.state {
            SummarizerState::Configured { .. } => true,
            SummarizerState::Disabled => false,
        }
    }

    /// The connection timeout: the request timeout, at most five seconds.
    pub fn connect_timeout(&self) -> (d: Option<Duration>)
        ensures
            match self.state {
                SummarizerState::Configured { request_timeout, .. } => d == Some(
                    Duration {
                        secs: if request_timeout.secs <= MAX_CONNECT_SECONDS { request_timeout.secs } else { MAX_CONNECT_SECONDS },
                    },
                ),
                SummarizerState::Disabled => d is None,
            },
    {
        match &self.state {
            SummarizerState::Configured { request_timeout, .. } => Some(request_timeout.min(Duration::from_secs(MAX_CONNECT_SECONDS))),
            SummarizerState::Disabled => None,
        }
    }

    /// The JSON body of a summary request for `prompt`: the model, the token
    /// limit and one user message; nothing when summaries are disabled.
    pub fn request_body(&self, prompt: &str) -> (body: Option<JsonValue>)
        ensures
            match self.state {
                SummarizerState::Disabled => body is None,
                SummarizerState::Configured { model, .. } => match body {
                    Some(b) => summary_request(b, model@, prompt@),
                    None => false,
                },
            },
    {
        match &self.state {
            SummarizerState::Disabled => None,
            SummarizerState::Configured { model, .. } => {
                let mut message: Vec<(String, JsonValue)> = Vec::new();
                message.push(("role".to_owned(), JsonValue::text("user")));
                message.push(("content".to_owned(), JsonValue::text(prompt)));
                let mut messages: Vec<JsonValue> = Vec::new();
                messages.push(JsonValue::Object(message));
                let mut body: Vec<(String, JsonValue)> = Vec::new();
                body.push(("model".to_owned(), JsonValue::text(model.as_str())));
                body.push(("max_tokens".to_owned(), JsonValue::Number("600".to_owned())));
                body.push(("messages".to_owned(), JsonValue::Array(messages)));
                let b = JsonValue::Object(body);
                proof {
                    reveal_strlit("model");
                    reveal_strlit("max_tokens");
                    reveal_strlit("messages");
                    reveal_strlit("role");
                    reveal_strlit("content");
                    assert("model"@.len() != "max_tokens"@.len());
                    assert("model"@.len() != "messages"@.len());
                    assert("model"@ != "max_tokens"@);
                    assert("model"@ != "messages"@);
                    assert("max_tokens"@ != "messages"@);
                    assert("role"@.len() != "content"@.len());
                    assert("role"@ != "content"@);
                    let bm = body@;
                    assert(bm.drop_first()[0] == bm[1]);
                    assert(bm.drop_first().drop_first()[0] == bm[2]);
                    let mm = message@;
                    assert(mm.drop_first()[0] == mm[1]);
                    assert(get_str(b, "model"@) == Some(model@));
                    assert(crate::json::lookup(bm.drop_first(), "max_tokens"@) == Some(bm[1].1));
                    assert(crate::json::json_get(b, "max_tokens"@) == Some(bm[1].1));
                    assert(crate::json::lookup(bm.drop_first().drop_first(), "messages"@) == Some(bm[2].1));
                    assert(crate::json::lookup(bm.drop_first(), "messages"@) == Some(bm[2].1));
                    assert(crate::json::json_get(b, "messages"@) == Some(bm[2].1));
                    assert(messages@[0] == JsonValue::Object(message));
                    assert(crate::json::lookup(mm, "role"@) == Some(mm[0].1));
                    assert(crate::json::lookup(mm.drop_first(), "content"@) == Some(mm[1].1));
                    assert(crate::json::lookup(mm, "content"@) == Some(mm[1].1));
                    assert(get_str(messages@[0], "role"@) == Some("user"@));
                    assert(get_str(messages@[0], "content"@) == Some(prompt@));
                }
                Some(b)
            },
        }
    }
}

/// What to do after one summary attempt.
#[derive(Debug)]
pub enum SummaryStep {
    /// Stop with this result.
    Finished(Result<Option<String>, SummarizerError>),
    /// Wait this many milliseconds, then make the next attempt.
    RetryAfter(u64),
}

/// After attempt `attempt` (counting from 1) ended with `outcome`: a summary
/// finishes; a temporary failure is retried after `attempt` times the base
/// delay while attempts remain; any other failure finishes with that error.
pub open spec fn summary_step_spec(attempt: u8, outcome: Result<String, SummarizerError>) -> SummaryStep {
    match outcome {
        Ok(s) => SummaryStep::Finished(Ok(Some(s))),
        Err(e) => if attempt < MAX_SUMMARY_ATTEMPTS && retryable_failure(e) {
            SummaryStep::RetryAfter((SUMMARY_RETRY_DELAY_MILLIS * attempt) as u64)
        } else {
            SummaryStep::Finished(Err(e))
        },
    }
}

/// Decides what follows a summary attempt.
pub fn summary_step(attempt: u8, outcome: Result<String, SummarizerError>) -> (step: SummaryStep)
    ensures
        step == summary_step_spec(attempt, outcome),
{
    match outcome {
        Ok(s) => SummaryStep::Finished(Ok(Some(s))),
        Err(e) => {
            if attempt < MAX_SUMMARY_ATTEMPTS && e.is_retryable() {
                SummaryStep::RetryAfter(SUMMARY_RETRY_DELAY_MILLIS * attempt as u64)
            } else {
                SummaryStep::Finished(Err(e))
            }
        },
    }
}

/// A summary attempt is never retried after the last one, nor after a lasting failure.
pub proof fn lemma_summary_attempts_bounded(attempt: u8, e: SummarizerError)
    ensures
        attempt >= MAX_SUMMARY_ATTEMPTS ==> summary_step_spec(attempt, Err(e)) is Finished,
        !retryable_failure(e) ==> summary_step_spec(attempt, Err(e)) is Finished,
{
}

/// What a reply body that parsed as `parsed` gives: the reply's text, or an
/// invalid response when the body is not JSON or holds no text.
pub open spec fn parsed_reply_outcome(parsed: Result<JsonValue, Seq<char>>, r: Result<String, SummarizerError>) -> bool {
    match parsed {
        Err(_) => r matches Err(SummarizerError::InvalidResponse),
        Ok(reply) => match r {
            Ok(t) => reply_text(reply) == Some(t@),
            Err(e) => reply_text(reply) is None && e is InvalidResponse,
        },
    }
}

/// The outcome of one summary request from the service's answer: its status
/// and its body text. A status other than success is a service failure;
/// otherwise the body is parsed as JSON and its text read.
pub fn reply_outcome(status: u16, body: &str) -> (r: Result<String, SummarizerError>)
    ensures
        !crate::fetcher::success_status(status) ==> (r matches Err(SummarizerError::Service { status: s }) && s == status),
        crate::fetcher::success_status(status) ==> parsed_reply_outcome(parsed_json(vstd::utf8::encode_utf8(body@)), r),
{
    if !(200 <= status && status <= 299) {
        return Err(SummarizerError::Service { status });
    }
    match parse_json(body.as_bytes()) {
        Ok(reply) => extract_text(&reply),
        Err(_) => Err(SummarizerError::InvalidResponse),
    }
}

} // verus!
