use policy_tracker::domain::{Region, SourceCategory};
use policy_tracker::government::{parse_date, CanadaGovernmentNormalizer, UsGovernmentNormalizer};
use policy_tracker::json::JsonValue;
use policy_tracker::normalization::{NormalizedPolicyRecord, Source, SourceDocument};

fn to_json(value: &serde_json::Value) -> JsonValue {
    match value {
        serde_json::Value::Null => JsonValue::Null,
        serde_json::Value::Bool(b) => JsonValue::Bool(*b),
        serde_json::Value::Number(n) => JsonValue::Number(n.to_string()),
        serde_json::Value::String(s) => JsonValue::Str(s.clone()),
        serde_json::Value::Array(items) => JsonValue::Array(items.iter().map(to_json).collect()),
        serde_json::Value::Object(members) => {
            JsonValue::Object(members.iter().map(|(k, v)| (k.clone(), to_json(v))).collect())
        }
    }
}

fn parsed(body: &[u8]) -> JsonValue {
    let value: serde_json::Value = serde_json::from_slice(body).unwrap();
    to_json(&value)
}

fn source(region: Region, agency: &str, base_url: &str) -> Source {
    Source {
        id: 1,
        region,
        category: SourceCategory::Policy,
        agency: agency.to_owned(),
        base_url: base_url.to_owned(),
        crawl_config: JsonValue::Object(Vec::new()),
        enabled: true,
    }
}

fn us_normalize(source: &Source, document: SourceDocument<'_>) -> Vec<NormalizedPolicyRecord> {
    assert!(UsGovernmentNormalizer.reads_json(&document));
    UsGovernmentNormalizer.normalize_json(source, document.source_url, &parsed(document.body))
}

fn canada_normalize(source: &Source, document: SourceDocument<'_>) -> Vec<NormalizedPolicyRecord> {
    assert!(CanadaGovernmentNormalizer.reads_json(&document));
    CanadaGovernmentNormalizer.normalize_json(source, document.source_url, &parsed(document.body))
}

#[test]
fn normalizes_a_federal_register_style_result() {
    let source = source(Region::UnitedStates, "Office of the Federal Register", "https://www.federalregister.gov");
    let document = SourceDocument {
        source_url: "https://www.federalregister.gov/documents",
        content_type: "application/json",
        body: br#"{
            "results": [{
                "document_number": "2026-12345",
                "title": "Example AI Policy",
                "agency_names": ["Example Agency"],
                "publication_date": "2026-07-25",
                "type": "Rule",
                "html_url": "https://www.federalregister.gov/documents/2026/12345"
            }]
        }"#,
    };

    let records = us_normalize(&source, document);

    assert_eq!(records.len(), 1);
    assert_eq!(records[0].source_external_id, "2026-12345");
    assert_eq!(records[0].agency, "Example Agency");
    assert_eq!(records[0].status, "Rule");
    assert_eq!(records[0].publication_date.unwrap().to_iso_string(), "2026-07-25");
}

#[test]
fn normalizes_a_canadian_open_data_style_record() {
    let source = source(Region::Canada, "Treasury Board of Canada Secretariat", "https://www.canada.ca");
    let document = SourceDocument {
        source_url: "https://www.canada.ca/api/policies",
        content_type: "application/json",
        body: br#"{
            "items": [{
                "uuid": "canada-ai-policy-1",
                "title": "Directive on Automated Decision-Making",
                "department": "Treasury Board of Canada Secretariat",
                "date_published": "2026-07-25T12:00:00Z",
                "status": "active",
                "url": "https://www.canada.ca/en/government/system/digital-government.html"
            }]
        }"#,
    };

    let records = canada_normalize(&source, document);

    assert_eq!(records.len(), 1);
    assert_eq!(records[0].source_external_id, "canada-ai-policy-1");
    assert_eq!(records[0].region, Region::Canada);
    assert_eq!(records[0].status, "active");
    assert_eq!(records[0].publication_date.unwrap().to_iso_string(), "2026-07-25");
}

#[test]
fn a_single_us_record_without_results_uses_defaults() {
    let source = source(Region::UnitedStates, "Fallback agency", "https://example.gov");
    let document = SourceDocument {
        source_url: "https://example.gov/doc",
        content_type: "application/json; charset=utf-8",
        body: br#"{"name": "Only record"}"#,
    };
    let records = us_normalize(&source, document);
    assert_eq!(records.len(), 1);
    assert_eq!(records[0].title, "Only record");
    assert_eq!(records[0].source_url, "https://example.gov/doc");
    assert_eq!(records[0].source_external_id, "https://example.gov/doc");
    assert_eq!(records[0].agency, "Fallback agency");
    assert_eq!(records[0].status, "published");
    assert!(records[0].publication_date.is_none());

    let untitled = SourceDocument { source_url: "u", content_type: "application/json", body: br#"{"results": [{"id": "x"}]}"# };
    assert!(us_normalize(&source, untitled).is_empty());
}

#[test]
fn government_normalizers_support_their_own_region_only() {
    let us = source(Region::UnitedStates, "a", "https://example.gov");
    let ca = source(Region::Canada, "a", "https://example.ca");
    assert!(UsGovernmentNormalizer.supports(&us));
    assert!(!UsGovernmentNormalizer.supports(&ca));
    assert!(CanadaGovernmentNormalizer.supports(&ca));
    assert!(!CanadaGovernmentNormalizer.supports(&us));
    let upper = SourceDocument { source_url: "u", content_type: "application/JSON", body: b"" };
    assert!(!UsGovernmentNormalizer.reads_json(&upper));
}

#[test]
fn html_publications_give_one_record_from_the_first_heading() {
    let source = source(Region::Canada, "Health Canada", "https://www.canada.ca");
    let document = SourceDocument {
        source_url: "https://www.canada.ca/en/news/ai.html",
        content_type: "text/html",
        body: br#"<html><body><h2>  Guidance on AI  </h2><h1>Later</h1><time datetime="2026-07-20T10:00:00Z">July 20</time></body></html>"#,
    };
    let records = CanadaGovernmentNormalizer.normalize_html(&source, &document).unwrap();
    assert_eq!(records.len(), 1);
    assert_eq!(records[0].title, "Guidance on AI");
    assert_eq!(records[0].source_external_id, "https://www.canada.ca/en/news/ai.html");
    assert_eq!(records[0].agency, "Health Canada");
    assert_eq!(records[0].publication_date.unwrap().to_iso_string(), "2026-07-20");

    let untitled = SourceDocument { source_url: "u", content_type: "text/html", body: b"<p>No heading</p>" };
    assert!(CanadaGovernmentNormalizer.normalize_html(&source, &untitled).unwrap().is_empty());

    let not_utf8 = SourceDocument { source_url: "u", content_type: "text/html", body: &[0xff, 0xfe] };
    let error = CanadaGovernmentNormalizer.normalize_html(&source, &not_utf8).unwrap_err();
    assert!(error.message().starts_with("source HTML was not UTF-8: "));
}

#[test]
fn us_html_takes_the_first_heading_and_no_date() {
    let source = source(Region::UnitedStates, "White House", "https://www.whitehouse.gov");
    let document = SourceDocument {
        source_url: "https://www.whitehouse.gov/briefing",
        content_type: "text/html",
        body: br#"<h2>Not this</h2><h1>Executive Order</h1><time datetime="2026-01-05">Jan 5</time>"#,
    };
    let records = UsGovernmentNormalizer.normalize_html(&source, &document).unwrap();
    assert_eq!(records.len(), 1);
    assert_eq!(records[0].title, "Not this");
    assert_eq!(records[0].region, Region::UnitedStates);
    assert!(records[0].publication_date.is_none());
}

#[test]
fn canadian_dates_read_the_first_ten_bytes() {
    assert_eq!(parse_date("2026-07-25T12:00:00Z").map(|d| d.to_iso_string()), Some("2026-07-25".to_owned()));
    assert!(parse_date("2026-7-5").is_none());
    assert!(parse_date("").is_none());
}
