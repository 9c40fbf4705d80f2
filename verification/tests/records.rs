use policy_tracker::change_detection::PolicyChangeKind;
use policy_tracker::change_feed::Timestamp;
use policy_tracker::json::JsonValue;
use policy_tracker::date::CalendarDate;
use policy_tracker::records::{version_details, DetailError, EntryRow, VersionRow};

fn row(id: i64, number: i32, kind: &str) -> VersionRow {
    VersionRow {
        id,
        version_number: number,
        change_kind: kind.to_owned(),
        canonical_content: JsonValue::Null,
        content_hash: format!("hash-{id}"),
        observed_at: Timestamp { unix_seconds: 1_700_000_000 + id, nanos: 0 },
        change_summary: if id == 2 { Some("Changed".to_owned()) } else { None },
    }
}

#[test]
fn version_history_keeps_order_and_reads_change_kinds() {
    let details = version_details(vec![row(3, 3, "updated"), row(2, 2, "updated"), row(1, 1, "new")]);
    assert_eq!(details.len(), 3);
    assert_eq!(details[0].id, 3);
    assert_eq!(details[0].change_kind, PolicyChangeKind::Updated);
    assert_eq!(details[1].change_summary.as_deref(), Some("Changed"));
    assert_eq!(details[2].version_number, 1);
    assert_eq!(details[2].change_kind, PolicyChangeKind::New);
    assert_eq!(details[2].content_hash, "hash-1");
    assert_eq!(details[2].observed_at, Timestamp { unix_seconds: 1_700_000_001, nanos: 0 });
}

#[test]
fn unknown_stored_kinds_read_back_as_updates() {
    let details = version_details(vec![row(5, 5, "withdrawn")]);
    assert_eq!(details[0].change_kind, PolicyChangeKind::Updated);
    assert!(version_details(Vec::new()).is_empty());
}

#[test]
fn entry_rows_are_shown_field_for_field_and_failures_map_to_statuses() {
    let detail = EntryRow {
        id: 1,
        source_id: 2,
        source_external_id: "ext".to_owned(),
        title: "Title".to_owned(),
        region: "ca".to_owned(),
        source_category: "policy".to_owned(),
        agency: "Agency".to_owned(),
        publication_date: Some(CalendarDate { year: 2026, month: 7, day: 25 }),
        status: "active".to_owned(),
        source_url: "https://example.test".to_owned(),
    }
    .into_detail();
    assert_eq!(detail.id, 1);
    assert_eq!(detail.source_category, "policy");
    assert_eq!(detail.publication_date.unwrap().to_iso_string(), "2026-07-25");
    assert_eq!(DetailError::NotFound.status_code(), 404);
    assert_eq!(DetailError::Database("down".to_owned()).status_code(), 500);
}
