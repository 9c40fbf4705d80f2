use policy_tracker::change_detection::ChangeDetectionOutcome;
use policy_tracker::domain::{Region, SourceCategory};
use policy_tracker::ingestion::{
    count_column, normalize_document, PolicyNormalizer, IngestionPass, PassAction, SourceResult, failure_message, outcome_columns, select_normalizer, source_from_row, Normalizer, SourceProcessOutcome,
    SourceRow,
};
use policy_tracker::government::UsGovernmentNormalizer;
use policy_tracker::json::JsonValue;
use policy_tracker::news::AiNewsNormalizer;
use policy_tracker::normalization::{Source, SourceDocument};

fn source(region: Region, category: SourceCategory) -> Source {
    Source {
        id: 9,
        region,
        category,
        agency: "Agency".to_owned(),
        base_url: "https://example.test".to_owned(),
        crawl_config: JsonValue::Object(Vec::new()),
        enabled: true,
    }
}

fn row(region: &str, category: &str) -> SourceRow {
    SourceRow {
        id: 4,
        region: region.to_owned(),
        category: category.to_owned(),
        agency: "Agency".to_owned(),
        base_url: "https://example.test".to_owned(),
        crawl_config: JsonValue::Null,
        enabled: true,
    }
}

#[test]
fn the_first_supporting_normalizer_is_chosen() {
    let all = [Normalizer::UsGovernment, Normalizer::CanadaGovernment, Normalizer::AiNews];
    assert_eq!(select_normalizer(&all, &source(Region::UnitedStates, SourceCategory::Policy)), Some(0));
    assert_eq!(select_normalizer(&all, &source(Region::Canada, SourceCategory::Policy)), Some(1));
    assert_eq!(select_normalizer(&all, &source(Region::Global, SourceCategory::News)), Some(2));
    assert_eq!(select_normalizer(&all, &source(Region::UnitedStates, SourceCategory::News)), Some(0));
    assert_eq!(select_normalizer(&all, &source(Region::Global, SourceCategory::Policy)), None);
    assert_eq!(select_normalizer(&[], &source(Region::Canada, SourceCategory::Policy)), None);
}

#[test]
fn json_parse_failures_are_reported_in_each_normalizers_words() {
    let news = source(Region::Global, SourceCategory::News);
    let error = Normalizer::AiNews.normalize_json(&news, "u", Err("EOF".to_owned())).unwrap_err();
    assert_eq!(error.message(), "invalid news JSON document: EOF");
    let error = Normalizer::UsGovernment.normalize_json(&news, "u", Err("EOF".to_owned())).unwrap_err();
    assert_eq!(error.message(), "invalid JSON source document: EOF");
    let records = Normalizer::AiNews
        .normalize_json(&news, "https://n.test/feed.json", Ok(JsonValue::Array(Vec::new())))
        .unwrap();
    assert!(records.is_empty());
}

#[test]
fn markup_documents_go_to_the_matching_reader() {
    let news = source(Region::Global, SourceCategory::News);
    let feed = SourceDocument {
        source_url: "https://n.test/rss.xml",
        content_type: "application/rss+xml",
        body: b"<rss><item><title>T</title><guid>https://n.test/t</guid></item></rss>",
    };
    assert!(!Normalizer::AiNews.reads_json(&feed));
    let records = Normalizer::AiNews.normalize_markup(&news, &feed).unwrap();
    assert_eq!(records.len(), 1);
    assert_eq!(records[0].source_url, "https://n.test/t");
    let json = SourceDocument { source_url: "u", content_type: "application/json", body: b"{}" };
    assert!(Normalizer::CanadaGovernment.reads_json(&json));
}

#[test]
fn stored_rows_become_sources_or_name_the_unknown_code() {
    let source = source_from_row(row("ca", "news")).unwrap();
    assert_eq!(source.id, 4);
    assert_eq!(source.region, Region::Canada);
    assert_eq!(source.category, SourceCategory::News);
    assert_eq!(source_from_row(row("mx", "news")).unwrap_err(), "unknown source region: mx");
    assert_eq!(source_from_row(row("us", "blog")).unwrap_err(), "unknown source category: blog");
    assert_eq!(source_from_row(row("xx", "blog")).unwrap_err(), "unknown source region: xx");
}

#[test]
fn counts_are_capped_to_the_column_range() {
    assert_eq!(count_column(0), 0);
    assert_eq!(count_column(12), 12);
    assert_eq!(count_column(i32::MAX as usize), i32::MAX);
    assert_eq!(count_column(usize::MAX), i32::MAX);
    let outcome = SourceProcessOutcome {
        raw_snapshot_key: "k".to_owned(),
        records_processed: 5,
        change_detection: ChangeDetectionOutcome { new_entries: 1, updated_entries: 2, unchanged_entries: 2 },
    };
    assert_eq!(outcome_columns(&outcome), (5, 1, 2, 2));
}

#[test]
fn failure_messages_keep_at_most_four_thousand_bytes() {
    assert_eq!(failure_message("short"), "short");
    let long = "x".repeat(4100);
    assert_eq!(failure_message(&long).len(), 4000);
    let exact = "y".repeat(4000);
    assert_eq!(failure_message(&exact), exact);
    let wide = format!("{}{}", "z".repeat(3998), "é€");
    assert_eq!(failure_message(&wide), format!("{}{}", "z".repeat(3998), "é"));
}

#[test]
fn a_failed_source_does_not_stop_the_pass() {
    let mut pass = IngestionPass::new(3);
    assert_eq!(pass.next_action(), PassAction::Process(0));
    pass.record(SourceResult::Failed);
    assert_eq!(pass.next_action(), PassAction::Process(1));
    pass.record(SourceResult::Succeeded);
    assert_eq!(pass.next_action(), PassAction::Process(2));
    pass.record(SourceResult::Failed);
    assert_eq!(pass.next_action(), PassAction::Finished);
    assert_eq!((pass.succeeded, pass.failed), (1, 2));
    assert_eq!(IngestionPass::new(0).next_action(), PassAction::Finished);
}

#[test]
fn documents_go_to_the_first_supporting_normalizer_and_are_parsed_by_media_type() {
    let all = [Normalizer::UsGovernment, Normalizer::CanadaGovernment, Normalizer::AiNews];
    let us = source(Region::UnitedStates, SourceCategory::Policy);
    let json = SourceDocument {
        source_url: "https://example.gov/api",
        content_type: "application/json",
        body: br#"{"results":[{"title":"Rule","document_number":"2026-1"}]}"#,
    };
    let records = normalize_document(&all, &us, &json).unwrap();
    assert_eq!(records.len(), 1);
    assert_eq!(records[0].source_external_id, "2026-1");

    let broken = SourceDocument { source_url: "u", content_type: "application/json", body: b"{" };
    let error = normalize_document(&all, &us, &broken).unwrap_err();
    assert!(error.message().starts_with("invalid JSON source document: "));

    let feed = SourceDocument {
        source_url: "https://n.test/rss.xml",
        content_type: "application/rss+xml",
        body: b"<rss><item><title>T</title><guid>https://n.test/t</guid></item></rss>",
    };
    let news = source(Region::Global, SourceCategory::News);
    assert_eq!(normalize_document(&all, &news, &feed).unwrap().len(), 1);

    let unsupported = source(Region::Global, SourceCategory::Policy);
    assert!(normalize_document(&all, &unsupported, &feed).unwrap().is_empty());
}

fn normalize_with<N: PolicyNormalizer>(normalizer: &N, source: &Source, document: &SourceDocument<'_>) -> usize {
    if normalizer.supports(source) {
        normalizer.normalize(source, document).map(|records| records.len()).unwrap_or(0)
    } else {
        0
    }
}

#[test]
fn every_normalizer_offers_the_common_interface() {
    let us = source(Region::UnitedStates, SourceCategory::Policy);
    let json = SourceDocument {
        source_url: "https://example.gov/api",
        content_type: "application/json",
        body: br#"{"results":[{"title":"Rule"},{"title":"Notice"}]}"#,
    };
    assert_eq!(normalize_with(&UsGovernmentNormalizer, &us, &json), 2);
    assert_eq!(normalize_with(&Normalizer::UsGovernment, &us, &json), 2);
    assert_eq!(normalize_with(&AiNewsNormalizer, &us, &json), 0);
}
