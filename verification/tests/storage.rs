use policy_tracker::date::CalendarDate;
use policy_tracker::storage::snapshot_key;

#[test]
fn snapshot_key_is_partitioned_by_source_date_and_content() {
    let observed_on = CalendarDate { year: 2026, month: 7, day: 25 };

    assert_eq!(
        snapshot_key("raw-snapshots/", 42, "aabbcc", observed_on),
        "raw-snapshots/sources/42/2026/07/25/aabbcc"
    );
}

#[test]
fn an_empty_prefix_leaves_no_leading_slash() {
    let observed_on = CalendarDate { year: 2026, month: 1, day: 5 };
    assert_eq!(snapshot_key("///", 7, "ff", observed_on), "sources/7/2026/01/05/ff");
    assert_eq!(snapshot_key("", -3, "ff", observed_on), "sources/-3/2026/01/05/ff");
    assert_eq!(snapshot_key("/a/b/", 7, "ff", observed_on), "a/b/sources/7/2026/01/05/ff");
}
