use policy_tracker::config::{
    parse_bool, parse_u64, AiSummarizerConfig, BackendConfig, ConfigError, EnvValue, Environment, IntErrorKind,
    ObjectStorageConfig, WorkerConfig,
};

fn environment(pairs: &[(&str, &str)]) -> Environment {
    Environment {
        vars: pairs
            .iter()
            .map(|(name, value)| ((*name).to_owned(), EnvValue::Present((*value).to_owned())))
            .collect(),
    }
}

fn storage_pairs() -> Vec<(&'static str, &'static str)> {
    vec![
        ("OBJECT_STORAGE_ACCESS_KEY_ID", "access"),
        ("OBJECT_STORAGE_SECRET_ACCESS_KEY", "SECRET-REDACTED"),
        ("OBJECT_STORAGE_BUCKET", "bucket"),
        ("OBJECT_STORAGE_PREFIX", "raw-snapshots/"),
        ("OBJECT_STORAGE_ENDPOINT", "https://storage.example.test"),
        ("OBJECT_STORAGE_REGION", "auto"),
        ("OBJECT_STORAGE_FORCE_PATH_STYLE", "true"),
    ]
}

#[test]
fn blank_or_incomplete_summarizer_configuration_is_disabled() {
    let blank = AiSummarizerConfig::from_values(None, None, None, None);
    assert!(matches!(blank, Ok(None)));

    let incomplete = AiSummarizerConfig::from_values(Some("key".to_owned()), None, Some("model".to_owned()), None);
    assert!(matches!(incomplete, Ok(None)));
}

#[test]
fn configured_summarizer_uses_default_timeout_when_blank() {
    let config = AiSummarizerConfig::from_values(
        Some("key".to_owned()),
        Some("https://ai.example.test".to_owned()),
        Some("model".to_owned()),
        None,
    );

    match config {
        Ok(Some(config)) => assert_eq!(config.request_timeout.as_secs(), 20),
        Ok(None) => panic!("complete summarizer settings should enable summaries"),
        Err(error) => panic!("complete summarizer settings should parse: {error:?}"),
    }
}

#[test]
fn summarizer_timeout_must_be_a_number_of_seconds() {
    let config = AiSummarizerConfig::from_values(
        Some("key".to_owned()),
        Some("https://ai.example.test".to_owned()),
        Some("model".to_owned()),
        Some("soon".to_owned()),
    );
    assert!(matches!(config, Err(ConfigError::InvalidSeconds(IntErrorKind::InvalidDigit))));
}

#[test]
fn integer_and_flag_texts_parse_as_std_does() {
    assert_eq!(parse_u64("86400"), Ok(86400));
    assert_eq!(parse_u64("+7"), Ok(7));
    assert_eq!(parse_u64(""), Err(IntErrorKind::Empty));
    assert_eq!(parse_u64("+"), Err(IntErrorKind::InvalidDigit));
    assert_eq!(parse_u64("-1"), Err(IntErrorKind::InvalidDigit));
    assert_eq!(parse_u64("18446744073709551615"), Ok(u64::MAX));
    assert_eq!(parse_u64("18446744073709551616"), Err(IntErrorKind::PosOverflow));
    assert_eq!(parse_bool("true"), Some(true));
    assert_eq!(parse_bool("false"), Some(false));
    assert_eq!(parse_bool("True"), None);
}

#[test]
fn backend_settings_use_defaults_and_require_the_database() {
    let config = BackendConfig::from_env(&environment(&[("DATABASE_URL", "postgres://db")])).unwrap();
    assert_eq!(config.database_url, "postgres://db");
    assert_eq!(config.listen_address, "0.0.0.0:8080");
    assert_eq!(config.frontend_dist_dir, "frontend/dist");

    let missing = BackendConfig::from_env(&environment(&[]));
    assert!(matches!(missing, Err(ConfigError::Missing("DATABASE_URL"))));

    let not_unicode = Environment {
        vars: vec![
            ("DATABASE_URL".to_owned(), EnvValue::Present("postgres://db".to_owned())),
            ("LISTEN_ADDRESS".to_owned(), EnvValue::NotUnicode),
        ],
    };
    assert!(matches!(BackendConfig::from_env(&not_unicode), Err(ConfigError::Missing("LISTEN_ADDRESS"))));
}

#[test]
fn worker_settings_read_storage_cadence_and_optional_summaries() {
    let mut pairs = storage_pairs();
    pairs.push(("DATABASE_URL", "postgres://db"));
    pairs.push(("AI_SUMMARIZER_API_KEY", "  key  "));
    pairs.push(("AI_SUMMARIZER_BASE_URL", "https://ai.example.test"));
    pairs.push(("AI_SUMMARIZER_MODEL", "model"));
    pairs.push(("AI_SUMMARIZER_TIMEOUT_SECONDS", "   "));
    let config = WorkerConfig::from_env(&environment(&pairs)).unwrap();
    assert_eq!(config.scheduler_cadence.as_secs(), 3600);
    assert_eq!(config.database_url, "postgres://db");
    assert_eq!(config.object_storage.prefix, "raw-snapshots/");
    assert!(config.object_storage.force_path_style);
    let summarizer = config.ai_summarizer.unwrap();
    assert_eq!(summarizer.api_key, "key");
    assert_eq!(summarizer.request_timeout.as_secs(), 20);

    let mut hourly_twice = storage_pairs();
    hourly_twice.push(("DATABASE_URL", "postgres://db"));
    hourly_twice.push(("SCHEDULER_CADENCE_SECONDS", "7200"));
    let config = WorkerConfig::from_env(&environment(&hourly_twice)).unwrap();
    assert_eq!(config.scheduler_cadence.as_secs(), 7200);
    assert!(config.ai_summarizer.is_none());
}

#[test]
fn storage_settings_reject_a_flag_that_is_not_a_boolean() {
    let mut pairs = storage_pairs();
    pairs.retain(|(name, _)| *name != "OBJECT_STORAGE_FORCE_PATH_STYLE");
    pairs.push(("OBJECT_STORAGE_FORCE_PATH_STYLE", "yes"));
    assert!(matches!(ObjectStorageConfig::from_env(&environment(&pairs)), Err(ConfigError::InvalidBoolean)));

    let mut missing = storage_pairs();
    missing.retain(|(name, _)| *name != "OBJECT_STORAGE_BUCKET");
    assert!(matches!(
        ObjectStorageConfig::from_env(&environment(&missing)),
        Err(ConfigError::Missing("OBJECT_STORAGE_BUCKET"))
    ));
}

#[test]
fn failures_are_reported_with_std_messages() {
    assert_eq!(ConfigError::Missing("DATABASE_URL").message(), "DATABASE_URL is required");
    for (text, kind) in [
        ("x", IntErrorKind::InvalidDigit),
        ("", IntErrorKind::Empty),
        ("99999999999999999999", IntErrorKind::PosOverflow),
    ] {
        assert_eq!(parse_u64(text), Err(kind));
        let expected = format!("invalid duration in seconds: {}", text.parse::<u64>().unwrap_err());
        assert_eq!(ConfigError::InvalidSeconds(kind).message(), expected);
    }
    let expected = format!("invalid storage path-style flag: {}", "yes".parse::<bool>().unwrap_err());
    assert_eq!(ConfigError::InvalidBoolean.message(), expected);
    assert_eq!(
        ConfigError::InvalidListenAddress("invalid socket address syntax".to_owned()).message(),
        "invalid listen address: invalid socket address syntax"
    );
}
