//! Environment-backed configuration shared by the backend and ingestion worker.
//!
//! The environment is handed over as a snapshot of its variables; reading the
//! process environment is the caller's part.
use vstd::prelude::*;

use crate::json::{nonblank, nonblank_str, opt_view};
use crate::text::{append_str, chars_eq, chars_of, str_eq, string_from};

verus! {

/// A span of whole seconds.
#[derive(Clone, Copy, Debug, PartialEq, Eq, Structural)]
pub struct Duration {
    pub secs: u64,
}

impl Duration {
    pub fn from_secs(secs: u64) -> (d: Duration)
        ensures
            d.secs == secs,
    {
        Duration { secs }
    }

    pub fn as_secs(&self) -> (s: u64)
        ensures
            s == self.secs,
    {
        self.secs
    }

    pub fn is_zero(&self) -> (z: bool)
        ensures
            z == (self.secs == 0),
    {
        self.secs == 0
    }

    /// The shorter of two spans.
    pub fn min(self, other: Duration) -> (d: Duration)
        ensures
            d.secs == if self.secs <= other.secs { self.secs } else { other.secs },
    {
        if self.secs <= other.secs {
            self
        } else {
            other
        }
    }
}

/// The value of one environment variable.
#[derive(Debug)]
pub enum EnvValue {
    /// The variable holds valid Unicode text.
    Present(String),
    /// The variable is set but its value is not valid Unicode.
    NotUnicode,
}

/// A snapshot of the process environment: each variable's name and value.
#[derive(Debug)]
pub struct Environment {
    pub vars: Vec<(String, EnvValue)>,
}

/// What the environment holds under `name` (the first entry with that name).
pub open spec fn env_lookup(vars: Seq<(String, EnvValue)>, name: Seq<char>) -> Option<EnvValue>
    decreases vars.len(),
{
    if vars.len() == 0 {
        None
    } else if vars[0].0@ == name {
        Some(vars[0].1)
    } else {
        env_lookup(vars.drop_first(), name)
    }
}

/// Why an integer text did not parse, as `core::num::IntErrorKind` names it.
#[derive(Clone, Copy, Debug, PartialEq, Eq, Structural)]
pub enum IntErrorKind {
    Empty,
    InvalidDigit,
    PosOverflow,
}

/// Environment configuration could not be read or parsed.
#[derive(Debug)]
pub enum ConfigError {
    /// The variable is absent, or holds text that is not Unicode.
    Missing(&'static str),
    /// The storage path-style flag is neither `true` nor `false`.
    InvalidBoolean,
    /// A duration in seconds is not a non-negative integer.
    InvalidSeconds(IntErrorKind),
    /// The listen address is not a socket address; the parser's message.
    InvalidListenAddress(String),
}

/// What a configuration step may fail with, in contracts.
pub enum ConfigFailure {
    Missing(Seq<char>),
    InvalidBoolean,
    InvalidSeconds(IntErrorKind),
}

/// The message std's `ParseIntError` displays for each kind.
pub open spec fn int_error_text(kind: IntErrorKind) -> Seq<char> {
    match kind {
        IntErrorKind::Empty => "cannot parse integer from empty string"@,
        IntErrorKind::InvalidDigit => "invalid digit found in string"@,
        IntErrorKind::PosOverflow => "number too large to fit in target type"@,
    }
}

/// The failure as reported.
pub open spec fn config_error_text(e: ConfigError) -> Seq<char> {
    match e {
        ConfigError::Missing(variable) => variable@ + " is required"@,
        ConfigError::InvalidBoolean => "invalid storage path-style flag: provided string was not `true` or `false`"@,
        ConfigError::InvalidSeconds(kind) => "invalid duration in seconds: "@ + int_error_text(kind),
        ConfigError::InvalidListenAddress(m) => "invalid listen address: "@ + m@,
    }
}

impl ConfigError {
    /// The failure as reported at startup.
    pub fn message(&self) -> (m: String)
        ensures
            m@ == config_error_text(*self),
    {
        let mut v: Vec<char> = Vec::new();
        match self {
            ConfigError::Missing(variable) => {
                append_str(&mut v, variable);
                append_str(&mut v, " is required");
            },
            ConfigError::InvalidBoolean => {
                append_str(&mut v, "invalid storage path-style flag: provided string was not `true` or `false`");
            },
            ConfigError::InvalidSeconds(kind) => {
                append_str(&mut v, "invalid duration in seconds: ");
                match kind {
                    IntErrorKind::Empty => append_str(&mut v, "cannot parse integer from empty string"),
                    IntErrorKind::InvalidDigit => append_str(&mut v, "invalid digit found in string"),
                    IntErrorKind::PosOverflow => append_str(&mut v, "number too large to fit in target type"),
                }
            },
            ConfigError::InvalidListenAddress(m) => {
                append_str(&mut v, "invalid listen address: ");
                append_str(&mut v, m.as_str());
            },
        }
        assert(v@ =~= config_error_text(*self));
        string_from(v.as_slice())
    }
}

pub open spec fn failure_of(e: ConfigError) -> Option<ConfigFailure> {
    match e {
        ConfigError::Missing(name) => Some(ConfigFailure::Missing(name@)),
        ConfigError::InvalidBoolean => Some(ConfigFailure::InvalidBoolean),
        ConfigError::InvalidSeconds(k) => Some(ConfigFailure::InvalidSeconds(k)),
        ConfigError::InvalidListenAddress(_) => None,
    }
}

pub open spec fn is_digit(c: char) -> bool {
    '0' <= c && c <= '9'
}

/// Reads decimal digits after `acc`, left to right: a non-digit is an invalid
/// digit, a value above `u64::MAX` an overflow.
pub open spec fn scan_digits(acc: nat, s: Seq<char>) -> Result<nat, IntErrorKind>
    decreases s.len(),
{
    if s.len() == 0 {
        Ok(acc)
    } else if !is_digit(s[0]) {
        Err(IntErrorKind::InvalidDigit)
    } else if acc * 10 + (s[0] as u32 - 48) > u64::MAX {
        Err(IntErrorKind::PosOverflow)
    } else {
        scan_digits(acc * 10 + (s[0] as u32 - 48) as nat, s.drop_first())
    }
}

/// A `u64` from decimal text with an optional leading `+`.
pub open spec fn parse_u64_text(s: Seq<char>) -> Result<u64, IntErrorKind> {
    if s.len() == 0 {
        Err(IntErrorKind::Empty)
    } else {
        let digits = if s[0] == '+' {
            s.drop_first()
        } else {
            s
        };
        if digits.len() == 0 {
            Err(IntErrorKind::InvalidDigit)
        } else {
            match scan_digits(0, digits) {
                Ok(n) => Ok(n as u64),
                Err(k) => Err(k),
            }
        }
    }
}

/// Parses a non-negative decimal integer with an optional leading `+`.
pub fn parse_u64(s: &str) -> (r: Result<u64, IntErrorKind>)
    ensures
        r == parse_u64_text(s@),
{
    let chars = chars_of(s);
    if chars.len() == 0 {
        return Err(IntErrorKind::Empty);
    }
    let start: usize = if chars[0] == '+' {
        1
    } else {
        0
    };
    let ghost digits = if chars@[0] == '+' {
        chars@.drop_first()
    } else {
        chars@
    };
    assert(digits =~= chars@.skip(start as int));
    if start == chars.len() {
        return Err(IntErrorKind::InvalidDigit);
    }
    let mut acc: u64 = 0;
    let mut i: usize = start;
    assert(chars@.skip(i as int) =~= digits);
    while i < chars.len()
        invariant
            start <= i <= chars.len(),
            scan_digits(0, digits) == scan_digits(acc as nat, chars@.skip(i as int)),
            parse_u64_text(s@) == match scan_digits(0, digits) {
                Ok(n) => Ok(n as u64),
                Err(k) => Err(k),
            },
        decreases chars.len() - i,
    {
        let c = chars[i];
        assert(chars@.skip(i as int)[0] == c);
        assert(chars@.skip(i as int).drop_first() =~= chars@.skip(i + 1));
        if !('0' <= c && c <= '9') {
            return Err(IntErrorKind::InvalidDigit);
        }
        let d = (c as u32 - 48) as u64;
        if acc > (u64::MAX - d) / 10 {
            assert(acc * 10 + d > u64::MAX) by (nonlinear_arith)
                requires
                    acc > (u64::MAX - d) / 10,
                    d <= 9,
            ;
            return Err(IntErrorKind::PosOverflow);
        }
        assert(acc * 10 + d <= u64::MAX) by (nonlinear_arith)
            requires
                acc <= (u64::MAX - d) / 10,
                d <= 9,
        ;
        acc = acc * 10 + d;
        i = i + 1;
    }
    Ok(acc)
}

/// `true` or `false`, exactly.
pub open spec fn parse_bool_text(s: Seq<char>) -> Option<bool> {
    if s == "true"@ {
        Some(true)
    } else if s == "false"@ {
        Some(false)
    } else {
        None
    }
}

/// Parses `true` or `false`.
pub fn parse_bool(s: &str) -> (r: Option<bool>)
    ensures
        r == parse_bool_text(s@),
{
    if str_eq(s, "true") {
        Some(true)
    } else if str_eq(s, "false") {
        Some(false)
    } else {
        None
    }
}

/// A required variable: its text, or `Missing` when it is absent or not Unicode.
pub open spec fn required_value(env: Environment, name: Seq<char>) -> Result<Seq<char>, ConfigFailure> {
    match env_lookup(env.vars@, name) {
        Some(EnvValue::Present(v)) => Ok(v@),
        _ => Err(ConfigFailure::Missing(name)),
    }
}

/// An optional variable: its text, the default when absent, `Missing` when not Unicode.
pub open spec fn optional_value(env: Environment, name: Seq<char>, default: Seq<char>) -> Result<Seq<char>, ConfigFailure> {
    match env_lookup(env.vars@, name) {
        Some(EnvValue::Present(v)) => Ok(v@),
        Some(EnvValue::NotUnicode) => Err(ConfigFailure::Missing(name)),
        None => Ok(default),
    }
}

/// A variable that counts only when set to non-blank text, trimmed.
pub open spec fn nonempty_value(env: Environment, name: Seq<char>) -> Option<Seq<char>> {
    match env_lookup(env.vars@, name) {
        Some(EnvValue::Present(v)) => nonblank(Some(v@)),
        _ => None,
    }
}

pub open spec fn string_result_view(r: Result<String, ConfigError>) -> Result<Seq<char>, ConfigFailure> {
    match r {
        Ok(s) => Ok(s@),
        Err(e) => match failure_of(e) {
            Some(f) => Err(f),
            None => Err(ConfigFailure::InvalidBoolean),
        },
    }
}

impl Environment {
    /// What the environment holds under `name`.
    pub fn lookup(&self, name: &str) -> (r: Option<&EnvValue>)
        ensures
            crate::json::deref_opt(r) == env_lookup(self.vars@, name@),
    {
        let key = chars_of(name);
        let mut i: usize = 0;
        assert(self.vars@.skip(0) =~= self.vars@);
        while i < self.vars.len()
            invariant
                i <= self.vars@.len(),
                key@ == name@,
                env_lookup(self.vars@, name@) == env_lookup(self.vars@.skip(i as int), name@),
            decreases self.vars.len() - i,
        {
            assert(self.vars@.skip(i as int).drop_first() =~= self.vars@.skip(i + 1));
            assert(self.vars@.skip(i as int)[0] == self.vars@[i as int]);
            let entry_name = chars_of(self.vars[i].0.as_str());
            if chars_eq(entry_name.as_slice(), key.as_slice()) {
                return Some(&self.vars[i].1);
            }
            i = i + 1;
        }
        None
    }
}

/// A required variable.
pub fn required(env: &Environment, variable: &'static str) -> (r: Result<String, ConfigError>)
    ensures
        string_result_view(r) == required_value(*env, variable@),
        r matches Err(e) ==> failure_of(e) is Some,
{
    match env.lookup(variable) {
        Some(EnvValue::Present(v)) => Ok(v.clone()),
        _ => Err(ConfigError::Missing(variable)),
    }
}

/// An optional variable with a default.
pub fn optional(env: &Environment, variable: &'static str, default: &'static str) -> (r: Result<String, ConfigError>)
    ensures
        string_result_view(r) == optional_value(*env, variable@, default@),
        r matches Err(e) ==> failure_of(e) is Some,
{
    match env.lookup(variable) {
        Some(EnvValue::Present(v)) => Ok(v.clone()),
        Some(EnvValue::NotUnicode) => Err(ConfigError::Missing(variable)),
        None => Ok(default.to_owned()),
    }
}

/// A variable that counts only when non-blank, trimmed.
pub fn nonempty_env(env: &Environment, variable: &'static str) -> (r: Option<String>)
    ensures
        opt_view(r) == nonempty_value(*env, variable@),
{
    match env.lookup(variable) {
        Some(EnvValue::Present(v)) => nonblank_str(v.as_str()),
        _ => None,
    }
}

/// Configuration used by the HTTP backend.
#[derive(Debug)]
pub struct BackendConfig {
    /// PostgreSQL connection string for the application's managed database.
    pub database_url: String,
    /// Interface and port used by the HTTP server, as configured text.
    pub listen_address: String,
    /// Directory containing the frontend's production build output.
    pub frontend_dist_dir: String,
}

impl BackendConfig {
    /// Loads backend settings: `DATABASE_URL` is required, `LISTEN_ADDRESS`
    /// defaults to `0.0.0.0:8080` and `FRONTEND_DIST_DIR` to `frontend/dist`.
    pub fn from_env(env: &Environment) -> (r: Result<BackendConfig, ConfigError>)
        ensures
            match r {
                Ok(c) => {
                    &&& required_value(*env, "DATABASE_URL"@) == Ok::<Seq<char>, ConfigFailure>(c.database_url@)
                    &&& optional_value(*env, "LISTEN_ADDRESS"@, "0.0.0.0:8080"@) == Ok::<Seq<char>, ConfigFailure>(c.listen_address@)
                    &&& optional_value(*env, "FRONTEND_DIST_DIR"@, "frontend/dist"@) == Ok::<Seq<char>, ConfigFailure>(
                        c.frontend_dist_dir@,
                    )
                },
                Err(e) => match failure_of(e) {
                    Some(f) => {
                        ||| required_value(*env, "DATABASE_URL"@) == Err::<Seq<char>, ConfigFailure>(f)
                        ||| (required_value(*env, "DATABASE_URL"@) is Ok && optional_value(*env, "LISTEN_ADDRESS"@, "0.0.0.0:8080"@)
                            == Err::<Seq<char>, ConfigFailure>(f))
                        ||| (required_value(*env, "DATABASE_URL"@) is Ok && optional_value(*env, "LISTEN_ADDRESS"@, "0.0.0.0:8080"@) is Ok
                            && optional_value(*env, "FRONTEND_DIST_DIR"@, "frontend/dist"@) == Err::<Seq<char>, ConfigFailure>(f))
                    },
                    None => false,
                },
            },
    {
        let database_url = required(env, "DATABASE_URL")?;
        let listen_address = optional(env, "LISTEN_ADDRESS", "0.0.0.0:8080")?;
        let frontend_dist_dir = optional(env, "FRONTEND_DIST_DIR", "frontend/dist")?;
        Ok(BackendConfig { database_url, listen_address, frontend_dist_dir })
    }
}

/// S3-compatible object storage configuration.
#[derive(Debug)]
pub struct ObjectStorageConfig {
    pub access_key_id: String,
    pub secret_access_key: String,
    pub bucket: String,
    pub prefix: String,
    pub endpoint: String,
    pub region: String,
    pub force_path_style: bool,
}

/// AI service configuration for policy-change summaries.
#[derive(Debug)]
pub struct AiSummarizerConfig {
    pub api_key: String,
    pub base_url: String,
    pub model: String,
    /// Maximum time allowed for one AI service request.
    pub request_timeout: Duration,
}

/// Configuration used by the scheduled ingestion worker.
#[derive(Debug)]
pub struct WorkerConfig {
    /// PostgreSQL connection string used to load enabled sources.
    pub database_url: String,
    /// Credentials and location for raw-source object storage.
    pub object_storage: ObjectStorageConfig,
    /// Credentials and request defaults for generated change summaries, when
    /// an AI service has been configured for this deployment.
    pub ai_summarizer: Option<AiSummarizerConfig>,
    /// Delay between ingestion passes.
    pub scheduler_cadence: Duration,
}

/// The summarizer settings from their values: disabled unless the key, base
/// URL and model are all given; the timeout text defaults to `20` seconds.
pub open spec fn summarizer_settings(
    api_key: Option<Seq<char>>,
    base_url: Option<Seq<char>>,
    model: Option<Seq<char>>,
    timeout_seconds: Option<Seq<char>>,
) -> Result<Option<(Seq<char>, Seq<char>, Seq<char>, u64)>, ConfigFailure> {
    match (api_key, base_url, model) {
        (Some(k), Some(b), Some(m)) => match parse_u64_text(
            match timeout_seconds {
                Some(t) => t,
                None => "20"@,
            },
        ) {
            Ok(secs) => Ok(Some((k, b, m, secs))),
            Err(kind) => Err(ConfigFailure::InvalidSeconds(kind)),
        },
        _ => Ok(None),
    }
}

pub open spec fn summarizer_view(r: Result<Option<AiSummarizerConfig>, ConfigError>) -> Result<
    Option<(Seq<char>, Seq<char>, Seq<char>, u64)>,
    ConfigFailure,
> {
    match r {
        Ok(Some(c)) => Ok(Some((c.api_key@, c.base_url@, c.model@, c.request_timeout.secs))),
        Ok(None) => Ok(None),
        Err(e) => match failure_of(e) {
            Some(f) => Err(f),
            None => Err(ConfigFailure::InvalidBoolean),
        },
    }
}

impl AiSummarizerConfig {
    /// Builds the summarizer settings from their values. Summaries enrich
    /// ingestion but never stop it: incomplete settings disable the
    /// integration instead of failing startup.
    pub fn from_values(
        api_key: Option<String>,
        base_url: Option<String>,
        model: Option<String>,
        timeout_seconds: Option<String>,
    ) -> (r: Result<Option<AiSummarizerConfig>, ConfigError>)
        ensures
            summarizer_view(r) == summarizer_settings(opt_view(api_key), opt_view(base_url), opt_view(model), opt_view(timeout_seconds)),
            r matches Err(e) ==> failure_of(e) is Some,
    {
        let (api_key, base_url, model) = match (api_key, base_url, model) {
            (Some(k), Some(b), Some(m)) => (k, b, m),
            _ => {
                return Ok(None);
            },
        };
        let text = match timeout_seconds {
            Some(t) => t,
            None => "20".to_owned(),
        };
        let secs = match parse_u64(text.as_str()) {
            Ok(s) => s,
            Err(kind) => {
                return Err(ConfigError::InvalidSeconds(kind));
            },
        };
        Ok(Some(AiSummarizerConfig { api_key, base_url, model, request_timeout: Duration::from_secs(secs) }))
    }

    /// Reads the summarizer settings from `AI_SUMMARIZER_API_KEY`,
    /// `AI_SUMMARIZER_BASE_URL`, `AI_SUMMARIZER_MODEL` and
    /// `AI_SUMMARIZER_TIMEOUT_SECONDS`, blank values counting as unset.
    pub fn from_env(env: &Environment) -> (r: Result<Option<AiSummarizerConfig>, ConfigError>)
        ensures
            summarizer_view(r) == summarizer_settings(
                nonempty_value(*env, "AI_SUMMARIZER_API_KEY"@),
                nonempty_value(*env, "AI_SUMMARIZER_BASE_URL"@),
                nonempty_value(*env, "AI_SUMMARIZER_MODEL"@),
                nonempty_value(*env, "AI_SUMMARIZER_TIMEOUT_SECONDS"@),
            ),
            r matches Err(e) ==> failure_of(e) is Some,
    {
        AiSummarizerConfig::from_values(
            nonempty_env(env, "AI_SUMMARIZER_API_KEY"),
            nonempty_env(env, "AI_SUMMARIZER_BASE_URL"),
            nonempty_env(env, "AI_SUMMARIZER_MODEL"),
            nonempty_env(env, "AI_SUMMARIZER_TIMEOUT_SECONDS"),
        )
    }
}

/// The object storage settings: every variable required, the path-style
/// flag `true` or `false`.
pub open spec fn storage_settings(env: Environment) -> Result<(Seq<Seq<char>>, bool), ConfigFailure> {
    match required_value(env, "OBJECT_STORAGE_ACCESS_KEY_ID"@) {
        Err(f) => Err(f),
        Ok(a) => match required_value(env, "OBJECT_STORAGE_SECRET_ACCESS_KEY"@) {
            Err(f) => Err(f),
            Ok(s) => match required_value(env, "OBJECT_STORAGE_BUCKET"@) {
                Err(f) => Err(f),
                Ok(b) => match required_value(env, "OBJECT_STORAGE_PREFIX"@) {
                    Err(f) => Err(f),
                    Ok(p) => match required_value(env, "OBJECT_STORAGE_ENDPOINT"@) {
                        Err(f) => Err(f),
                        Ok(e) => match required_value(env, "OBJECT_STORAGE_REGION"@) {
                            Err(f) => Err(f),
                            Ok(r) => match required_value(env, "OBJECT_STORAGE_FORCE_PATH_STYLE"@) {
                                Err(f) => Err(f),
                                Ok(flag) => match parse_bool_text(flag) {
                                    Some(v) => Ok((seq![a, s, b, p, e, r], v)),
                                    None => Err(ConfigFailure::InvalidBoolean),
                                },
                            },
                        },
                    },
                },
            },
        },
    }
}

pub open spec fn storage_view(c: ObjectStorageConfig) -> (Seq<Seq<char>>, bool) {
    (seq![c.access_key_id@, c.secret_access_key@, c.bucket@, c.prefix@, c.endpoint@, c.region@], c.force_path_style)
}

impl ObjectStorageConfig {
    /// Reads the `OBJECT_STORAGE_*` variables.
    pub fn from_env(env: &Environment) -> (r: Result<ObjectStorageConfig, ConfigError>)
        ensures
            match r {
                Ok(c) => storage_settings(*env) == Ok::<(Seq<Seq<char>>, bool), ConfigFailure>(storage_view(c)),
                Err(e) => match failure_of(e) {
                    Some(f) => storage_settings(*env) == Err::<(Seq<Seq<char>>, bool), ConfigFailure>(f),
                    None => false,
                },
            },
    {
        let access_key_id = required(env, "OBJECT_STORAGE_ACCESS_KEY_ID")?;
        let secret_access_key = required(env, "OBJECT_STORAGE_SECRET_ACCESS_KEY")?;
        let bucket = required(env, "OBJECT_STORAGE_BUCKET")?;
        let prefix = required(env, "OBJECT_STORAGE_PREFIX")?;
        let endpoint = required(env, "OBJECT_STORAGE_ENDPOINT")?;
        let region = required(env, "OBJECT_STORAGE_REGION")?;
        let flag = required(env, "OBJECT_STORAGE_FORCE_PATH_STYLE")?;
        let force_path_style = match parse_bool(flag.as_str()) {
            Some(v) => v,
            None => {
                return Err(ConfigError::InvalidBoolean);
            },
        };
        let c = ObjectStorageConfig { access_key_id, secret_access_key, bucket, prefix, endpoint, region, force_path_style };
        assert(storage_view(c).0 =~= seq![c.access_key_id@, c.secret_access_key@, c.bucket@, c.prefix@, c.endpoint@, c.region@]);
        Ok(c)
    }
}

/// The default delay between ingestion passes: hourly.
pub const DEFAULT_CADENCE_SECONDS: u64 = 3600;

impl WorkerConfig {
    /// Loads worker settings: the cadence (`SCHEDULER_CADENCE_SECONDS`,
    /// hourly by default), then `DATABASE_URL`, then object storage, then the
    /// optional summarizer, failing at the first problem.
    pub fn from_env(env: &Environment) -> (r: Result<WorkerConfig, ConfigError>)
        ensures
            match r {
                Ok(c) => {
                    &&& optional_value(*env, "SCHEDULER_CADENCE_SECONDS"@, "3600"@) matches Ok(t)
                    &&& parse_u64_text(t) == Ok::<u64, IntErrorKind>(c.scheduler_cadence.secs)
                    &&& required_value(*env, "DATABASE_URL"@) == Ok::<Seq<char>, ConfigFailure>(c.database_url@)
                    &&& storage_settings(*env) == Ok::<(Seq<Seq<char>>, bool), ConfigFailure>(storage_view(c.object_storage))
                    &&& summarizer_view(Ok(c.ai_summarizer)) == summarizer_settings(
                        nonempty_value(*env, "AI_SUMMARIZER_API_KEY"@),
                        nonempty_value(*env, "AI_SUMMARIZER_BASE_URL"@),
                        nonempty_value(*env, "AI_SUMMARIZER_MODEL"@),
                        nonempty_value(*env, "AI_SUMMARIZER_TIMEOUT_SECONDS"@),
                    )
                },
                Err(e) => failure_of(e) is Some,
            },
            (optional_value(*env, "SCHEDULER_CADENCE_SECONDS"@, "3600"@) is Err || (optional_value(
                *env,
                "SCHEDULER_CADENCE_SECONDS"@,
                "3600"@,
            ) matches Ok(t) && parse_u64_text(t) is Err) || required_value(*env, "DATABASE_URL"@) is Err || storage_settings(
                *env,
            ) is Err || summarizer_settings(
                nonempty_value(*env, "AI_SUMMARIZER_API_KEY"@),
                nonempty_value(*env, "AI_SUMMARIZER_BASE_URL"@),
                nonempty_value(*env, "AI_SUMMARIZER_MODEL"@),
                nonempty_value(*env, "AI_SUMMARIZER_TIMEOUT_SECONDS"@),
            ) is Err) <==> r is Err,
    {
        let cadence_text = optional(env, "SCHEDULER_CADENCE_SECONDS", "3600")?;
        let cadence_seconds = match parse_u64(cadence_text.as_str()) {
            Ok(s) => s,
            Err(kind) => {
                return Err(ConfigError::InvalidSeconds(kind));
            },
        };
        let database_url = required(env, "DATABASE_URL")?;
        let object_storage = ObjectStorageConfig::from_env(env)?;
        let ai_summarizer = AiSummarizerConfig::from_env(env)?;
        Ok(WorkerConfig { database_url, object_storage, ai_summarizer, scheduler_cadence: Duration::from_secs(cadence_seconds) })
    }
}

/// Incomplete summarizer settings disable summaries rather than failing, and
/// complete ones without a timeout get 20 seconds.
pub proof fn lemma_summarizer_settings_defaults(
    api_key: Option<Seq<char>>,
    base_url: Option<Seq<char>>,
    model: Option<Seq<char>>,
)
    ensures
        (api_key is None || base_url is None || model is None) ==> summarizer_settings(api_key, base_url, model, None) == Ok::<
            Option<(Seq<char>, Seq<char>, Seq<char>, u64)>,
            ConfigFailure,
        >(None),
        (api_key is Some && base_url is Some && model is Some) ==> summarizer_settings(api_key, base_url, model, None)
            == Ok::<Option<(Seq<char>, Seq<char>, Seq<char>, u64)>, ConfigFailure>(
            Some((api_key.unwrap(), base_url.unwrap(), model.unwrap(), 20)),
        ),
{
    reveal_strlit("20");
    let d = "20"@;
    assert(d[0] == '2' && d[1] == '0' && d.len() == 2);
    assert(d.drop_first().drop_first().len() == 0);
    assert(scan_digits(2, d.drop_first()) == scan_digits(20, d.drop_first().drop_first()));
}

} // verus!
