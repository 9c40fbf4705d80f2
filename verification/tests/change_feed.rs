use policy_tracker::change_feed::{
    change_feed_sql, order_by, ChangeFeedItem, ChangeFeedQuery, ChangeFeedResponse, ChangeFeedSort, FeedError, FeedRow,
    Timestamp,
};

#[test]
fn pagination_uses_defaults_and_bounds_the_limit() {
    assert_eq!(ChangeFeedQuery::default().pagination(), (20, 0));
    assert_eq!(
        ChangeFeedQuery {
            limit: Some(500),
            offset: Some(7),
            ..ChangeFeedQuery::default()
        }
        .pagination(),
        (100, 7)
    );
}

#[test]
fn filters_trim_empty_values_and_normalize_codes() {
    let query = ChangeFeedQuery {
        region: Some(" CA ".to_owned()),
        agency: Some("  Health Canada  ".to_owned()),
        status: Some(" ".to_owned()),
        category: Some(" NEWS ".to_owned()),
        ..ChangeFeedQuery::default()
    };

    assert_eq!(
        query.filters(),
        (
            Some("ca".to_owned()),
            Some("Health Canada".to_owned()),
            None,
            Some("news".to_owned()),
        )
    );
}

#[test]
fn search_term_trims_values_and_ignores_blank_queries() {
    assert_eq!(ChangeFeedQuery::default().search_term(), None);

    let blank = ChangeFeedQuery {
        q: Some("  \t ".to_owned()),
        ..ChangeFeedQuery::default()
    };
    assert_eq!(blank.search_term(), None);

    let query = ChangeFeedQuery {
        q: Some("  artificial intelligence  ".to_owned()),
        ..ChangeFeedQuery::default()
    };
    assert_eq!(query.search_term(), Some("artificial intelligence".to_owned()));
}

#[test]
fn sort_defaults_to_newest_published_and_accepts_each_wire_value() {
    assert_eq!(ChangeFeedQuery::default().sort(), ChangeFeedSort::PublishedDesc);

    for (wire_value, expected) in [
        ("published_desc", ChangeFeedSort::PublishedDesc),
        ("published_asc", ChangeFeedSort::PublishedAsc),
        ("observed_desc", ChangeFeedSort::ObservedDesc),
        ("observed_asc", ChangeFeedSort::ObservedAsc),
    ] {
        let query = ChangeFeedQuery {
            sort: ChangeFeedSort::from_wire_name(wire_value),
            ..ChangeFeedQuery::default()
        };
        assert_eq!(query.sort(), expected);
        assert_eq!(expected.wire_name(), wire_value);
    }
    assert_eq!(ChangeFeedSort::from_wire_name("newest"), None);
    assert_eq!(ChangeFeedSort::from_wire_name("Published_Desc"), None);
}

#[test]
fn default_sort_deprioritizes_scheduled_entries_and_keeps_other_orders_unchanged() {
    assert_eq!(
        order_by(ChangeFeedSort::PublishedDesc),
        "CASE WHEN publication_date > CURRENT_DATE THEN 1 ELSE 0 END ASC, publication_date DESC NULLS LAST, observed_at DESC, latest_version_id DESC, entry_id DESC"
    );
    assert_eq!(
        order_by(ChangeFeedSort::PublishedAsc),
        "publication_date ASC NULLS LAST, observed_at DESC, latest_version_id DESC, entry_id DESC"
    );
    assert_eq!(
        order_by(ChangeFeedSort::ObservedDesc),
        "observed_at DESC, latest_version_id DESC, entry_id DESC"
    );
    assert_eq!(
        order_by(ChangeFeedSort::ObservedAsc),
        "observed_at ASC, latest_version_id DESC, entry_id DESC"
    );
}

#[test]
fn limit_below_one_is_raised_to_one() {
    let query = ChangeFeedQuery {
        limit: Some(0),
        ..ChangeFeedQuery::default()
    };
    assert_eq!(query.pagination(), (1, 0));
    let exact = ChangeFeedQuery {
        limit: Some(100),
        offset: Some(40),
        ..ChangeFeedQuery::default()
    };
    assert_eq!(exact.pagination(), (100, 40));
}

#[test]
fn query_plan_binds_one_extra_row_and_the_cleaned_filters() {
    let query = ChangeFeedQuery {
        limit: Some(5),
        offset: Some(10),
        region: Some(" US ".to_owned()),
        q: Some(" model ".to_owned()),
        sort: Some(ChangeFeedSort::ObservedAsc),
        ..ChangeFeedQuery::default()
    };
    let plan = query.plan();
    assert_eq!(plan.fetch_limit, 6);
    assert_eq!(plan.offset, 10);
    assert_eq!(plan.region, Some("us".to_owned()));
    assert_eq!(plan.agency, None);
    assert_eq!(plan.search_term, Some("model".to_owned()));
    assert!(plan.sql.contains("ORDER BY observed_at ASC, latest_version_id DESC, entry_id DESC"));
    assert_eq!(plan.sql, change_feed_sql(ChangeFeedSort::ObservedAsc));
}

fn item(entry_id: i64) -> ChangeFeedItem {
    ChangeFeedItem {
        entry_id,
        title: format!("Entry {entry_id}"),
        region: "us".to_owned(),
        source_category: "policy".to_owned(),
        agency: "Example agency".to_owned(),
        publication_date: None,
        scheduled: false,
        status: "published".to_owned(),
        source_url: "https://example.test".to_owned(),
        change_summary: None,
        changed_at: Timestamp { unix_seconds: 0, nanos: 0 },
    }
}

#[test]
fn a_page_with_an_extra_row_offers_the_next_offset() {
    let page = ChangeFeedResponse::from_rows(vec![item(1), item(2), item(3)], 2, 4);
    assert_eq!(page.items.len(), 2);
    assert_eq!(page.items[0].entry_id, 1);
    assert_eq!(page.items[1].entry_id, 2);
    assert_eq!(page.next_offset, Some(6));

    let last = ChangeFeedResponse::from_rows(vec![item(1), item(2)], 2, 4);
    assert_eq!(last.items.len(), 2);
    assert_eq!(last.next_offset, None);

    let far = ChangeFeedResponse::from_rows(vec![item(1), item(2)], 1, u32::MAX);
    assert_eq!(far.next_offset, Some(u32::MAX));
}

#[test]
fn feed_rows_become_items_changed_when_observed() {
    let item = FeedRow {
        entry_id: 3,
        title: "T".to_owned(),
        region: "us".to_owned(),
        source_category: "news".to_owned(),
        agency: "A".to_owned(),
        publication_date: None,
        scheduled: true,
        status: "published".to_owned(),
        source_url: "https://example.test".to_owned(),
        change_summary: Some("S".to_owned()),
        observed_at: Timestamp { unix_seconds: 42, nanos: 7 },
    }
    .into_item();
    assert_eq!(item.entry_id, 3);
    assert!(item.scheduled);
    assert_eq!(item.changed_at, Timestamp { unix_seconds: 42, nanos: 7 });
    assert_eq!(FeedError::Database("down".to_owned()).status_code(), 500);
}

#[test]
fn query_text_depends_only_on_the_order() {
    let plain = ChangeFeedQuery::default().plan();
    let filtered = ChangeFeedQuery {
        region: Some("us'; DROP TABLE sources; --".to_owned()),
        q: Some("ORDER BY 1".to_owned()),
        agency: Some("x".to_owned()),
        ..ChangeFeedQuery::default()
    }
    .plan();
    assert_eq!(plain.sql, filtered.sql);
    assert!(!filtered.sql.contains("DROP TABLE"));
    let observed = ChangeFeedQuery { sort: Some(ChangeFeedSort::ObservedDesc), ..ChangeFeedQuery::default() }.plan();
    assert_ne!(plain.sql, observed.sql);
}
