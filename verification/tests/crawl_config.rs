use policy_tracker::crawl_config::{CrawlConfig, CrawlConfigError};
use policy_tracker::json::JsonValue;

fn object(members: Vec<(&str, JsonValue)>) -> JsonValue {
    JsonValue::Object(members.into_iter().map(|(k, v)| (k.to_owned(), v)).collect())
}

fn strings(values: &[&str]) -> JsonValue {
    JsonValue::Array(values.iter().map(|v| JsonValue::Str((*v).to_owned())).collect())
}

fn number(text: &str) -> JsonValue {
    JsonValue::Number(text.to_owned())
}

#[test]
fn discovery_requires_both_hard_bounds() {
    assert!(CrawlConfig::parse(&object(vec![("max_pages", number("10"))])).is_err());
    assert!(CrawlConfig::parse(&object(vec![("max_depth", number("2"))])).is_err());
    assert!(CrawlConfig::parse(&object(vec![("max_pages", number("0")), ("max_depth", number("2"))])).is_err());
}

#[test]
fn existing_start_only_configuration_stays_valid() {
    let config = CrawlConfig::parse(&object(vec![("start_paths", strings(&["/feed"]))])).unwrap();

    assert!(!config.discovery_enabled());
    assert_eq!(config.start_paths, ["/feed"]);
}

#[test]
fn bounded_discovery_configuration_preserves_all_url_filters() {
    let config = CrawlConfig::parse(&object(vec![
        ("sitemap_paths", strings(&["/sitemap.xml"])),
        ("feed_paths", strings(&["/feed.xml"])),
        ("allowed_path_prefixes", strings(&["/news/"])),
        ("include_patterns", strings(&["/202[56]/"])),
        ("exclude_patterns", strings(&["/tag/"])),
        ("max_pages", number("20")),
        ("max_depth", number("2")),
    ]))
    .unwrap();

    assert!(config.discovery_enabled());
    assert_eq!(config.sitemap_paths, ["/sitemap.xml"]);
    assert_eq!(config.feed_paths, ["/feed.xml"]);
}

#[test]
fn bound_errors_name_the_problem_and_shapes_are_checked() {
    match CrawlConfig::parse(&object(vec![("max_pages", number("10"))])) {
        Err(CrawlConfigError::InvalidBounds(message)) => {
            assert_eq!(message, "max_pages and max_depth must be configured together")
        }
        other => panic!("unexpected result: {other:?}"),
    }
    match CrawlConfig::parse(&object(vec![("max_pages", number("5")), ("max_depth", number("0"))])) {
        Ok(config) => assert!(config.discovery_enabled()),
        Err(error) => panic!("a zero depth is allowed: {error:?}"),
    }
    assert!(matches!(
        CrawlConfig::parse(&object(vec![("start_paths", JsonValue::Str("/feed".to_owned()))])),
        Err(CrawlConfigError::Deserialize(_))
    ));
    assert!(matches!(CrawlConfig::parse(&JsonValue::Null), Err(CrawlConfigError::Deserialize(_))));
    let empty = CrawlConfig::parse(&object(vec![])).unwrap();
    assert!(empty.start_paths.is_empty());
    assert!(empty.validate().is_ok());
}

#[test]
fn crawl_failures_name_their_kind() {
    assert_eq!(
        CrawlConfigError::InvalidBounds("max_pages must be greater than zero".to_owned()).message(),
        "invalid crawl_config bounds: max_pages must be greater than zero"
    );
    assert_eq!(CrawlConfigError::Deserialize("bad".to_owned()).message(), "invalid crawl_config: bad");
}
