use policy_tracker::domain::{Region, SourceCategory};
use policy_tracker::feed_xml::{collect_articles, parse_xml_articles, FeedEvent};
use policy_tracker::json::JsonValue;
use policy_tracker::news::{parse_publication_date, resolve_article_url, AiNewsNormalizer};
use policy_tracker::normalization::{NormalizedPolicyRecord, Source, SourceDocument};

fn to_json(value: &serde_json::Value) -> JsonValue {
    match value {
        serde_json::Value::Null => JsonValue::Null,
        serde_json::Value::Bool(b) => JsonValue::Bool(*b),
        serde_json::Value::Number(n) => JsonValue::Number(n.to_string()),
        serde_json::Value::String(s) => JsonValue::Str(s.clone()),
        serde_json::Value::Array(items) => JsonValue::Array(items.iter().map(to_json).collect()),
        serde_json::Value::Object(members) => {
            JsonValue::Object(members.iter().map(|(k, v)| (k.clone(), to_json(v))).collect())
        }
    }
}

fn news_source() -> Source {
    news_source_with_agency("Configured AI news source")
}

fn news_source_with_agency(agency: &str) -> Source {
    Source {
        id: 7,
        region: Region::Global,
        category: SourceCategory::News,
        agency: agency.to_owned(),
        base_url: "https://news.example.test".to_owned(),
        crawl_config: JsonValue::Object(Vec::new()),
        enabled: true,
    }
}

fn normalize(source: &Source, document: SourceDocument<'_>) -> Result<Vec<NormalizedPolicyRecord>, String> {
    if AiNewsNormalizer.reads_json(&document) {
        let payload: serde_json::Value = serde_json::from_slice(document.body).map_err(|e| e.to_string())?;
        Ok(AiNewsNormalizer.normalize_json(source, document.source_url, &to_json(&payload)))
    } else {
        AiNewsNormalizer.normalize_xml(source, &document).map_err(|e| e.message().to_owned())
    }
}

#[test]
fn rss_normalization_emits_one_record_per_article_with_guid_identity() {
    let document = SourceDocument {
        source_url: "https://news.example.test/rss.xml",
        content_type: "application/rss+xml",
        body: br#"<?xml version="1.0"?><rss><channel><title>AI Wire</title>
            <item><title>First model launch</title><guid>guid-1</guid><link>/articles/first</link><pubDate>Fri, 25 Jul 2026 12:00:00 +0000</pubDate></item>
            <item><title>Second model launch</title><guid>guid-2</guid><link>https://news.example.test/articles/second</link><pubDate>2026-07-26</pubDate></item>
        </channel></rss>"#,
    };
    let records = match normalize(&news_source(), document) {
        Ok(records) => records,
        Err(error) => panic!("RSS should normalize: {error}"),
    };

    assert_eq!(records.len(), 2);
    assert_eq!(records[0].source_external_id, "guid-1");
    assert_eq!(records[0].source_url, "https://news.example.test/articles/first");
    assert_eq!(records[0].agency, "Configured AI news source");
    assert_eq!(records[1].source_external_id, "guid-2");
}

#[test]
fn atom_normalization_uses_atom_id_and_link_href() {
    let document = SourceDocument {
        source_url: "https://news.example.test/atom.xml",
        content_type: "application/atom+xml",
        body: br#"<feed xmlns="http://www.w3.org/2005/Atom"><title>Atom AI</title>
            <entry><title>Atom article</title><id>tag:example.test,2026:atom-1</id><link rel="self" href="/atom.xml"/><link rel="alternate" href="/atom/article"/><published>2026-07-27T08:30:00Z</published></entry>
        </feed>"#,
    };
    let records = match normalize(&news_source(), document) {
        Ok(records) => records,
        Err(error) => panic!("Atom should normalize: {error}"),
    };

    assert_eq!(records.len(), 1);
    assert_eq!(records[0].source_external_id, "tag:example.test,2026:atom-1");
    assert_eq!(records[0].source_url, "https://news.example.test/atom/article");
    assert_eq!(records[0].publication_date.map(|date| date.to_iso_string()), Some("2026-07-27".to_owned()));
}

#[test]
fn json_normalization_handles_multiple_articles_and_source_names() {
    let document = SourceDocument {
        source_url: "https://news.example.test/feed.json",
        content_type: "application/feed+json",
        body: br#"{
            "articles": [
                {"id": "json-1", "title": "JSON article one", "url": "/json/one", "published_at": "2026-07-25T12:00:00Z", "source": {"name": "JSON AI Daily"}},
                {"guid": "json-2", "headline": "JSON article two", "link": "https://news.example.test/json/two", "date": "2026-07-26"}
            ]
        }"#,
    };
    let records = match normalize(&news_source(), document) {
        Ok(records) => records,
        Err(error) => panic!("JSON should normalize: {error}"),
    };

    assert_eq!(records.len(), 2);
    assert_eq!(records[0].source_external_id, "json-1");
    assert_eq!(records[0].agency, "JSON AI Daily");
    assert_eq!(records[1].source_external_id, "json-2");
    assert_eq!(records[1].agency, "Configured AI news source");
}

#[test]
fn normalizer_only_supports_news_sources() {
    let mut source = news_source();
    assert!(AiNewsNormalizer.supports(&source));
    source.category = SourceCategory::Policy;
    assert!(!AiNewsNormalizer.supports(&source));
}

#[test]
fn seeded_ai_news_feeds_emit_article_records_with_configured_sources() {
    let feeds = [
        (
            "OpenAI News",
            "https://openai.com/news/rss.xml",
            br#"<rss><channel><title>OpenAI News</title><item><title>Launching Health in ChatGPT</title><link>https://openai.com/index/health-in-chatgpt</link><guid>https://openai.com/index/health-in-chatgpt</guid><pubDate>Thu, 23 Jul 2026 00:00:00 GMT</pubDate></item></channel></rss>"# as &[u8],
            "Launching Health in ChatGPT",
            "https://openai.com/index/health-in-chatgpt",
            "2026-07-23",
        ),
        (
            "Google AI Blog",
            "https://blog.google/technology/ai/rss/",
            br#"<rss><channel><title>AI</title><item><title>3 Google updates from Galaxy Unpacked 2026</title><link>https://blog.google/products-and-platforms/platforms/android/galaxy-unpacked-2026/</link><pubDate>Wed, 22 Jul 2026 13:00:00 +0000</pubDate><guid>https://blog.google/products-and-platforms/platforms/android/galaxy-unpacked-2026/</guid></item></channel></rss>"# as &[u8],
            "3 Google updates from Galaxy Unpacked 2026",
            "https://blog.google/products-and-platforms/platforms/android/galaxy-unpacked-2026/",
            "2026-07-22",
        ),
        (
            "Hugging Face Blog",
            "https://huggingface.co/blog/feed.xml",
            br#"<rss><channel><title>Hugging Face - Blog</title><item><title>Bringing Nunchaku 4-bit Diffusion Inference to Diffusers</title><pubDate>Thu, 23 Jul 2026 00:00:00 GMT</pubDate><link>https://huggingface.co/blog/nunchaku-diffusers</link><guid>https://huggingface.co/blog/nunchaku-diffusers</guid></item></channel></rss>"# as &[u8],
            "Bringing Nunchaku 4-bit Diffusion Inference to Diffusers",
            "https://huggingface.co/blog/nunchaku-diffusers",
            "2026-07-23",
        ),
        (
            "MIT Technology Review AI",
            "https://www.technologyreview.com/topic/artificial-intelligence/feed/",
            br#"<rss><channel><title>MIT Technology Review AI</title><item><title>How AI helps scientists design the next generation of medicines</title><link>https://www.technologyreview.com/2026/07/23/1140346/how-ai-helps-scientists-design-the-next-generation-of-medicines/</link><pubDate>Thu, 23 Jul 2026 12:00:00 +0000</pubDate><guid>https://www.technologyreview.com/?p=1140346</guid></item></channel></rss>"# as &[u8],
            "How AI helps scientists design the next generation of medicines",
            "https://www.technologyreview.com/2026/07/23/1140346/how-ai-helps-scientists-design-the-next-generation-of-medicines/",
            "2026-07-23",
        ),
    ];

    for (agency, source_url, body, title, article_url, date) in feeds {
        let document = SourceDocument {
            source_url,
            content_type: "application/rss+xml",
            body,
        };
        let records = match normalize(&news_source_with_agency(agency), document) {
            Ok(records) => records,
            Err(error) => panic!("{agency} feed should normalize: {error}"),
        };

        assert_eq!(records.len(), 1, "{agency}");
        assert_eq!(records[0].title, title, "{agency}");
        assert_eq!(records[0].source_url, article_url, "{agency}");
        assert_eq!(records[0].agency, agency, "{agency}");
        assert_eq!(
            records[0].publication_date.map(|value| value.to_iso_string()),
            Some(date.to_owned()),
            "{agency}"
        );
    }
}

#[test]
fn articles_without_a_title_are_skipped_and_identity_falls_back_to_the_link() {
    let document = SourceDocument {
        source_url: "https://news.example.test/rss.xml",
        content_type: "application/rss+xml",
        body: br#"<rss><channel><item><guid>orphan</guid></item><item><title>  Linked only  </title><link>/a/b</link></item></channel></rss>"#,
    };
    let records = normalize(&news_source(), document).unwrap();
    assert_eq!(records.len(), 1);
    assert_eq!(records[0].title, "Linked only");
    assert_eq!(records[0].source_external_id, "https://news.example.test/a/b");
    assert_eq!(records[0].status, "published");
    assert_eq!(records[0].region, Region::Global);
    assert!(records[0].publication_date.is_none());
}

#[test]
fn media_type_case_decides_json_for_news() {
    let document = SourceDocument { source_url: "u", content_type: "Application/JSON", body: b"{}" };
    assert!(AiNewsNormalizer.reads_json(&document));
    let xml = SourceDocument { source_url: "u", content_type: "application/rss+xml", body: b"" };
    assert!(!AiNewsNormalizer.reads_json(&xml));
}

#[test]
fn feed_reading_gathers_each_article_tag() {
    let articles = parse_xml_articles(
        br#"<feed><entry><title>A</title><link href="/x"/><dc:date>2026-01-02</dc:date><source>Wire</source></entry></feed>"#,
    )
    .unwrap();
    assert_eq!(articles.len(), 1);
    assert_eq!(articles[0].title.as_deref(), Some("A"));
    assert_eq!(articles[0].link.as_deref(), Some("/x"));
    assert_eq!(articles[0].publication_date.as_deref(), Some("2026-01-02"));
    assert_eq!(articles[0].source_name.as_deref(), Some("Wire"));
    assert!(parse_xml_articles(b"<rss><item><title>A &bogus; B</title></item></rss>").is_err());
}

#[test]
fn article_urls_and_dates_follow_the_documented_formats() {
    assert_eq!(
        resolve_article_url("https://news.example.test/feeds/rss.xml", "../articles/one"),
        Some("https://news.example.test/articles/one".to_owned())
    );
    assert_eq!(resolve_article_url("not a url", "/x"), None);
    assert_eq!(parse_publication_date("2026-07-25").map(|d| d.to_iso_string()), Some("2026-07-25".to_owned()));
    assert_eq!(
        parse_publication_date("2026-07-25T23:30:00-05:00").map(|d| d.to_iso_string()),
        Some("2026-07-25".to_owned())
    );
    assert_eq!(
        parse_publication_date("Sun, 26 Jul 2026 01:00:00 +0200").map(|d| d.to_iso_string()),
        Some("2026-07-26".to_owned())
    );
    assert!(parse_publication_date("yesterday").is_none());
}

#[test]
fn cdata_text_and_prefixed_tags_are_read() {
    let articles = parse_xml_articles(
        b"<rss><channel><ITEM><Title><![CDATA[ Raw & ready ]]></Title><GUID>g</GUID><dc:creator>x</dc:creator></ITEM></channel></rss>",
    )
    .unwrap();
    assert_eq!(articles.len(), 1);
    assert_eq!(articles[0].title.as_deref(), Some("Raw & ready"));
    assert_eq!(articles[0].identifier.as_deref(), Some("g"));
}

#[test]
fn feed_rules_keep_the_first_identifier_and_the_latest_title() {
    let start = |tag: &str| FeedEvent::Start { tag: tag.to_owned(), link: None };
    let end = |tag: &str| FeedEvent::End { tag: tag.to_owned() };
    let text = |t: &str| FeedEvent::Text(t.to_owned());
    let articles = collect_articles(vec![
        start("title"),
        text("Channel title"),
        end("title"),
        start("item"),
        start("guid"),
        text("first"),
        end("guid"),
        start("id"),
        text("second"),
        end("id"),
        start("title"),
        text("Old"),
        end("title"),
        start("title"),
        text("  New  "),
        end("title"),
        FeedEvent::Empty { tag: "link".to_owned(), link: Some("/kept".to_owned()) },
        text("outside any element"),
        end("item"),
        start("entry"),
        text("ignored"),
    ]);
    assert_eq!(articles.len(), 1);
    assert_eq!(articles[0].identifier.as_deref(), Some("first"));
    assert_eq!(articles[0].title.as_deref(), Some("New"));
    assert_eq!(articles[0].link.as_deref(), Some("/kept"));
}

#[test]
fn only_alternate_links_count_and_malformed_documents_fail() {
    let articles = parse_xml_articles(
        br#"<feed><entry><title>A</title><link rel="SELF" href="/self"/><link rel="Alternate" href="/alt"/></entry><entry><title>B</title><link rel="enclosure" href="/file"/></entry></feed>"#,
    )
    .unwrap();
    assert_eq!(articles.len(), 2);
    assert_eq!(articles[0].link.as_deref(), Some("/alt"));
    assert_eq!(articles[1].link, None);
    let error = parse_xml_articles(b"<rss><item><title>x</item></rss>").unwrap_err();
    assert!(error.message().starts_with("invalid RSS or Atom XML document: "));
    assert!(parse_xml_articles(b"").unwrap().is_empty());
}
