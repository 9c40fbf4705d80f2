use policy_tracker::change_detection::{
    canonical_hash, change_kind, change_summary, condense_summary, decide_change, summary_prompt, tally, ChangeDecision, ChangeKind,
    LatestVersion, NewVersion, PolicyChangeKind,
};
use policy_tracker::digest::content_hash;
use policy_tracker::domain::Region;
use policy_tracker::json::JsonValue;
use policy_tracker::normalization::NormalizedPolicyRecord;

#[test]
fn maps_database_change_kinds_to_api_values() {
    assert_eq!(change_kind("new"), PolicyChangeKind::New);
    assert_eq!(change_kind("updated"), PolicyChangeKind::Updated);
}

#[test]
fn unexpected_change_kinds_count_as_updates() {
    assert_eq!(change_kind("deleted"), PolicyChangeKind::Updated);
    assert_eq!(change_kind("New"), PolicyChangeKind::Updated);
    assert_eq!(PolicyChangeKind::New.as_code(), "new");
    assert_eq!(PolicyChangeKind::Updated.as_code(), "updated");
}

#[test]
fn summaries_are_limited_to_two_nonempty_lines() {
    assert_eq!(
        condense_summary("First line\n\nSecond line\nThird line"),
        Some("First line\nSecond line".to_owned())
    );
}

#[test]
fn blank_summaries_give_nothing_and_lines_are_trimmed() {
    assert_eq!(condense_summary(" \n\t\n"), None);
    assert_eq!(condense_summary(""), None);
    assert_eq!(condense_summary("  Only line  \r\n"), Some("Only line".to_owned()));
    assert_eq!(change_summary(None), None);
    assert_eq!(change_summary(Some("A\nB\nC".to_owned())), Some("A\nB".to_owned()));
}

fn text(value: &str) -> JsonValue {
    JsonValue::Str(value.to_owned())
}

fn object(members: Vec<(&str, JsonValue)>) -> JsonValue {
    JsonValue::Object(members.into_iter().map(|(k, v)| (k.to_owned(), v)).collect())
}

fn record(canonical_content: JsonValue) -> NormalizedPolicyRecord {
    NormalizedPolicyRecord {
        source_external_id: "example".to_owned(),
        title: "Example policy".to_owned(),
        region: Region::UnitedStates,
        agency: "Example agency".to_owned(),
        publication_date: None,
        status: "active".to_owned(),
        source_url: "https://example.test".to_owned(),
        canonical_content,
    }
}

#[test]
fn canonical_hash_is_stable_for_equivalent_content() {
    assert_eq!(
        canonical_hash(&object(vec![("title", text("Example")), ("status", text("active"))])),
        canonical_hash(&object(vec![("status", text("active")), ("title", text("Example"))])),
    );
}

#[test]
fn canonical_hash_is_the_digest_of_compact_sorted_json() {
    let content = object(vec![("title", text("Example")), ("status", text("active"))]);
    assert_eq!(canonical_hash(&content), content_hash(br#"{"status":"active","title":"Example"}"#));
    assert_ne!(canonical_hash(&content), canonical_hash(&object(vec![("title", text("Other"))])));
}

#[test]
fn content_hash_is_the_lowercase_sha256_hex() {
    assert_eq!(content_hash(b""), "e3b0c44298fc1c149afbf4c8996fb92427ae41e4649b934ca495991b7852b855");
    assert_eq!(content_hash(b"abc"), "ba7816bf8f01cfea414140de5dae2223b00361a396177a9cb410ff61f20015ad");
}

#[test]
fn new_record_prompt_explains_that_no_prior_version_exists() {
    let record = record(object(vec![("status", text("active"))]));

    assert!(summary_prompt(&record, None).contains("No prior version exists"));
}

#[test]
fn updated_record_prompt_quotes_both_contents() {
    let mut record = record(object(vec![("a", JsonValue::Number("2".to_owned()))]));
    record.title = "Title".to_owned();
    let previous = object(vec![("a", JsonValue::Number("1".to_owned()))]);
    let prompt = summary_prompt(&record, Some(&previous));
    assert_eq!(
        prompt,
        "Write a factual one-to-two-line plain-language summary of the substantive policy change. Do not use headings, bullets, or speculation.\n\nPolicy title: Title\nPrevious canonical content: {\"a\":1}\n\nCurrent canonical content: {\"a\":2}"
    );
}

#[test]
fn versions_are_stored_only_for_new_or_changed_content() {
    assert_eq!(
        decide_change(&None, "h1"),
        ChangeDecision { kind: ChangeKind::New, version: Some(NewVersion { number: 1, kind: PolicyChangeKind::New }) }
    );
    let latest = Some(LatestVersion { content_hash: "h1".to_owned(), version_number: 3 });
    assert_eq!(decide_change(&latest, "h1"), ChangeDecision { kind: ChangeKind::Unchanged, version: None });
    assert_eq!(
        decide_change(&latest, "h2"),
        ChangeDecision {
            kind: ChangeKind::Updated,
            version: Some(NewVersion { number: 4, kind: PolicyChangeKind::Updated }),
        }
    );
}

#[test]
fn a_pass_counts_each_record_once() {
    let outcome = tally(&[ChangeKind::New, ChangeKind::Unchanged, ChangeKind::New, ChangeKind::Updated]);
    assert_eq!(outcome.new_entries, 2);
    assert_eq!(outcome.updated_entries, 1);
    assert_eq!(outcome.unchanged_entries, 1);
    let empty = tally(&[]);
    assert_eq!(empty.new_entries + empty.updated_entries + empty.unchanged_entries, 0);
}

#[test]
fn observing_the_same_content_again_stores_nothing_and_numbers_follow_changes() {
    let mut latest: Option<LatestVersion> = None;
    let mut numbers = Vec::new();
    for hash in ["a", "a", "b", "b", "a"] {
        let decision = decide_change(&latest, hash);
        if let Some(version) = decision.version {
            numbers.push(version.number);
            latest = Some(LatestVersion { content_hash: hash.to_owned(), version_number: version.number });
        } else {
            assert_eq!(decision.kind, ChangeKind::Unchanged);
        }
    }
    assert_eq!(numbers, vec![1, 2, 3]);
    assert_eq!(decide_change(&latest, "a"), ChangeDecision { kind: ChangeKind::Unchanged, version: None });
}
