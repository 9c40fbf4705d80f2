//! Normalization for RSS, Atom and JSON AI-news feeds.
use vstd::prelude::*;

use crate::date::{date_from, date_of, parse_rfc2822, parse_rfc3339, parse_ymd, rfc2822_date, rfc3339_date, ymd_date, CalendarDate};
use crate::domain::SourceCategory;
use crate::json::{first_str, get_array, get_str, json_array, json_get, json_str, nonblank, non_empty, opt_view, str_views, JsonValue};
use crate::normalization::{
    date_string, date_text, flat_object, opt_record_matches, records_match, NormalizedPolicyRecord, RecordView, Source,
};
use crate::text::{ascii_lower, byte_prefix, byte_prefix_chars, chars_of, has_infix, string_from, trim};
use crate::feed_xml::{drafts, feed_document, parse_xml_articles, ArticleDraft, XmlArticle};
use crate::normalization::{NormalizationError, SourceDocument};
use crate::web_url::{join_url, joined_url, parse_url, parsed_url};

verus! {

/// The URL of an article link: the link itself when it parses as a URL,
/// otherwise the link resolved against the document's URL.
pub open spec fn resolved_url(document_url: Seq<char>, candidate: Seq<char>) -> Option<Seq<char>> {
    match parsed_url(candidate) {
        Ok(u) => Some(u),
        Err(_) => match joined_url(document_url, candidate) {
            Ok(u) => Some(u),
            Err(_) => None,
        },
    }
}

/// The publication date of a feed's date text: a `YYYY-MM-DD` text, then the
/// first ten bytes read as `YYYY-MM-DD`, then RFC 3339, then RFC 2822.
pub open spec fn publication_date(value: Seq<char>) -> Option<CalendarDate> {
    match date_of(ymd_date(value)) {
        Some(d) => Some(d),
        None => match (match byte_prefix(value, 10) {
            Some(p) => date_of(ymd_date(p)),
            None => None,
        }) {
            Some(d) => Some(d),
            None => match date_of(rfc3339_date(value)) {
                Some(d) => Some(d),
                None => date_of(rfc2822_date(value)),
            },
        },
    }
}

/// The record for one article, or nothing when it has no title or no URL.
pub open spec fn news_record(
    source: Source,
    document_url: Seq<char>,
    title: Option<Seq<char>>,
    identifier: Option<Seq<char>>,
    link: Option<Seq<char>>,
    date: Option<Seq<char>>,
    source_name: Option<Seq<char>>,
    description: Option<Seq<char>>,
) -> Option<RecordView> {
    let id = nonblank(identifier);
    let from_link = match nonblank(link) {
        Some(l) => resolved_url(document_url, l),
        None => None,
    };
    let url = match from_link {
        Some(u) => Some(u),
        None => match id {
            Some(i) => resolved_url(document_url, i),
            None => None,
        },
    };
    match (nonblank(title), url) {
        (Some(t), Some(u)) => {
            let agency = match nonblank(source_name) {
                Some(a) => a,
                None => source.agency@,
            };
            let d = match date {
                Some(text) => publication_date(text),
                None => None,
            };
            Some(
                RecordView {
                    source_external_id: match id {
                        Some(i) => i,
                        None => u,
                    },
                    title: t,
                    region: source.region,
                    agency: agency,
                    publication_date: d,
                    status: "published"@,
                    source_url: u,
                    canonical: seq![
                        ("title"@, Some(t)),
                        ("source_name"@, Some(agency)),
                        ("publication_date"@, date_text(d)),
                        ("source_url"@, Some(u)),
                        ("description"@, nonblank(description)),
                    ],
                },
            )
        },
        _ => None,
    }
}

/// Resolves an article link against the URL of the document that holds it.
pub fn resolve_article_url(document_url: &str, candidate: &str) -> (r: Option<String>)
    ensures
        opt_view(r) == resolved_url(document_url@, candidate@),
{
    match parse_url(candidate) {
        Ok(u) => Some(u),
        Err(_) => match join_url(document_url, candidate) {
            Ok(u) => Some(u),
            Err(_) => None,
        },
    }
}

/// Reads a feed's publication date text.
pub fn parse_publication_date(value: &str) -> (d: Option<CalendarDate>)
    ensures
        d == publication_date(value@),
{
    let whole = date_from(parse_ymd(value));
    if whole.is_some() {
        return whole;
    }
    let chars = chars_of(value);
    let prefix = match byte_prefix_chars(chars.as_slice(), 10) {
        Some(p) => {
            let text = string_from(p.as_slice());
            date_from(parse_ymd(text.as_str()))
        },
        None => None,
    };
    if prefix.is_some() {
        return prefix;
    }
    let rfc3339 = date_from(parse_rfc3339(value));
    if rfc3339.is_some() {
        return rfc3339;
    }
    date_from(parse_rfc2822(value))
}

fn url_for(document_url: &str, link: &Option<String>, identifier: &Option<String>) -> (r: Option<String>)
    ensures
        opt_view(r) == match (match opt_view(*link) {
            Some(l) => resolved_url(document_url@, l),
            None => None,
        }) {
            Some(u) => Some(u),
            None => match opt_view(*identifier) {
                Some(i) => resolved_url(document_url@, i),
                None => None,
            },
        },
{
    let from_link = match link {
        Some(l) => resolve_article_url(document_url, l.as_str()),
        None => None,
    };
    match from_link {
        Some(u) => Some(u),
        None => match identifier {
            Some(i) => resolve_article_url(document_url, i.as_str()),
            None => None,
        },
    }
}

/// Builds the record for one article.
pub fn normalize_article(
    source: &Source,
    document_url: &str,
    title: Option<String>,
    identifier: Option<String>,
    link: Option<String>,
    publication_date: Option<String>,
    article_source_name: Option<String>,
    description: Option<String>,
) -> (r: Option<NormalizedPolicyRecord>)
    ensures
        opt_record_matches(
            r,
            news_record(
                *source,
                document_url@,
                opt_view(title),
                opt_view(identifier),
                opt_view(link),
                opt_view(publication_date),
                opt_view(article_source_name),
                opt_view(description),
            ),
        ),
{
    let ghost args = (
        opt_view(title),
        opt_view(identifier),
        opt_view(link),
        opt_view(publication_date),
        opt_view(article_source_name),
        opt_view(description),
    );
    let title = match non_empty(title) {
        Some(t) => t,
        None => {
            return None;
        },
    };
    let identifier = non_empty(identifier);
    let link = non_empty(link);
    let source_url = match url_for(document_url, &link, &identifier) {
        Some(u) => u,
        None => {
            return None;
        },
    };
    let source_external_id = match identifier {
        Some(i) => i,
        None => source_url.clone(),
    };
    let agency = match non_empty(article_source_name) {
        Some(a) => a,
        None => source.agency.clone(),
    };
    let date = match publication_date {
        Some(text) => parse_publication_date(text.as_str()),
        None => None,
    };
    let description = non_empty(description);
    let mut fields: Vec<(&str, Option<String>)> = Vec::new();
    fields.push(("title", Some(title.clone())));
    fields.push(("source_name", Some(agency.clone())));
    fields.push(("publication_date", date_string(date)));
    fields.push(("source_url", Some(source_url.clone())));
    fields.push(("description", description));
    let ghost fs = fields@;
    let canonical_content = flat_object(fields);
    proof {
        let m = fs.map_values(|f: (&str, Option<String>)| (f.0@, opt_view(f.1)));
        let expected = news_record(*source, document_url@, args.0, args.1, args.2, args.3, args.4, args.5);
        assert(m =~= expected.unwrap().canonical) by {
            reveal_strlit("title");
        };
    }
    Some(
        NormalizedPolicyRecord {
            source_external_id,
            title,
            region: source.region,
            agency,
            publication_date: date,
            status: "published".to_owned(),
            source_url,
            canonical_content,
        },
    )
}

pub open spec fn title_keys() -> Seq<Seq<char>> {
    seq!["title"@, "headline"@, "name"@]
}

pub open spec fn identifier_keys() -> Seq<Seq<char>> {
    seq!["guid"@, "id"@, "uuid"@]
}

pub open spec fn link_keys() -> Seq<Seq<char>> {
    seq!["url"@, "link"@, "article_url"@, "web_url"@]
}

pub open spec fn date_keys() -> Seq<Seq<char>> {
    seq!["published_at"@, "publishedAt"@, "publication_date"@, "pubDate"@, "date_published"@, "date"@]
}

pub open spec fn description_keys() -> Seq<Seq<char>> {
    seq!["summary"@, "description"@, "content"@, "excerpt"@]
}

pub open spec fn source_name_keys() -> Seq<Seq<char>> {
    seq!["source_name"@, "publisher"@, "publication"@]
}

/// The non-blank, trimmed text of the first of `keys` whose member is a string.
pub open spec fn field_text(article: JsonValue, keys: Seq<Seq<char>>) -> Option<Seq<char>> {
    nonblank(first_str(article, keys))
}

/// The publisher of a JSON article: a named publisher field, a `source`
/// string, or the `name` (else `title`) of a `source` object.
pub open spec fn article_source(article: JsonValue) -> Option<Seq<char>> {
    nonblank(
        match field_text(article, source_name_keys()) {
            Some(s) => Some(s),
            None => match get_str(article, "source"@) {
                Some(s) => Some(s),
                None => match json_get(article, "source"@) {
                    Some(src) => match json_get(src, "name"@) {
                        Some(n) => json_str(n),
                        None => get_str(src, "title"@),
                    },
                    None => None,
                },
            },
        },
    )
}

/// An article with no `source_name`, `publisher` or `publication` string and
/// a non-blank `source` string is published by that string, trimmed: it is
/// the record's agency.
pub proof fn lemma_source_string_is_publisher(source: Source, document_url: Seq<char>, article: JsonValue, name: Seq<char>)
    requires
        get_str(article, "source_name"@) is None,
        get_str(article, "publisher"@) is None,
        get_str(article, "publication"@) is None,
        get_str(article, "source"@) == Some(name),
        trim(name).len() > 0,
    ensures
        article_source(article) == Some(trim(name)),
        news_json_record(source, document_url, article) matches Some(r) ==> r.agency == trim(name),
{
    let keys = source_name_keys();
    assert(keys.drop_first().drop_first().drop_first().len() == 0);
    assert(first_str(article, keys.drop_first().drop_first().drop_first()) is None);
    assert(first_str(article, keys.drop_first().drop_first()) is None);
    assert(first_str(article, keys.drop_first()) is None);
    assert(first_str(article, keys) is None);
    assert(trim(trim(name)) == trim(name)) by {
        crate::text::lemma_trim_idempotent(name);
    };
}

/// A non-blank `source_name` string names the publisher, whatever else the
/// article holds; without the named publisher fields and a `source` string,
/// a `source` object names it by its `name` string, else by its `title`.
pub proof fn lemma_publisher_fields(article: JsonValue, src: JsonValue, name: Seq<char>)
    ensures
        (get_str(article, "source_name"@) == Some(name) && trim(name).len() > 0) ==> article_source(article) == Some(
            trim(name),
        ),
        (get_str(article, "source_name"@) is None && get_str(article, "publisher"@) is None && get_str(
            article,
            "publication"@,
        ) is None && json_get(article, "source"@) == Some(src) && json_str(src) is None && trim(name).len() > 0) ==> (
        (get_str(src, "name"@) == Some(name) ==> article_source(article) == Some(trim(name))) && (json_get(src, "name"@)
            is None && get_str(src, "title"@) == Some(name) ==> article_source(article) == Some(trim(name)))),
{
    crate::text::lemma_trim_idempotent(name);
    let keys = source_name_keys();
    if get_str(article, "source_name"@) is None && get_str(article, "publisher"@) is None && get_str(article, "publication"@) is None {
        assert(keys.drop_first().drop_first().drop_first().len() == 0);
        assert(first_str(article, keys.drop_first().drop_first().drop_first()) is None);
        assert(first_str(article, keys.drop_first().drop_first()) is None);
        assert(first_str(article, keys.drop_first()) is None);
        assert(first_str(article, keys) is None);
    }
}

/// The articles of a JSON news document: the document itself when it is an
/// array, else the first of `articles`, `items`, `results`, `data` that is one.
pub open spec fn news_articles(payload: JsonValue) -> Seq<JsonValue> {
    match json_array(payload) {
        Some(items) => items,
        None => match get_array(payload, "articles"@) {
            Some(a) => a,
            None => match get_array(payload, "items"@) {
                Some(a) => a,
                None => match get_array(payload, "results"@) {
                    Some(a) => a,
                    None => match get_array(payload, "data"@) {
                        Some(a) => a,
                        None => Seq::empty(),
                    },
                },
            },
        },
    }
}

/// The record for one JSON article.
pub open spec fn news_json_record(source: Source, document_url: Seq<char>, article: JsonValue) -> Option<RecordView> {
    news_record(
        source,
        document_url,
        field_text(article, title_keys()),
        field_text(article, identifier_keys()),
        field_text(article, link_keys()),
        field_text(article, date_keys()),
        article_source(article),
        field_text(article, description_keys()),
    )
}

/// The records of a JSON news document, one per article with a title and URL, in order.
pub open spec fn news_json_records(source: Source, document_url: Seq<char>, payload: JsonValue) -> Seq<RecordView> {
    news_articles(payload).filter_map(|a: JsonValue| news_json_record(source, document_url, a))
}

/// The non-blank text of the first of `keys` whose member is a string.
pub fn string_field(article: &JsonValue, keys: &[&str]) -> (r: Option<String>)
    ensures
        opt_view(r) == field_text(*article, str_views(keys@)),
{
    non_empty(article.first_str(keys))
}

/// The publisher named by a JSON article.
pub fn article_source_name(article: &JsonValue) -> (r: Option<String>)
    ensures
        opt_view(r) == article_source(*article),
{
    let keys: [&str; 3] = ["source_name", "publisher", "publication"];
    assert(str_views(keys@) =~= source_name_keys());
    let candidate: Option<String> = match string_field(article, keys.as_slice()) {
        Some(s) => Some(s),
        None => match article.get_str("source") {
            Some(s) => Some(s.to_owned()),
            None => match article.get("source") {
                Some(src) => match src.get("name") {
                    Some(n) => match n.as_str() {
                        Some(s) => Some(s.to_owned()),
                        None => None,
                    },
                    None => match src.get_str("title") {
                        Some(s) => Some(s.to_owned()),
                        None => None,
                    },
                },
                None => None,
            },
        },
    };
    non_empty(candidate)
}

/// The articles of a JSON news document.
pub fn json_articles(payload: &JsonValue) -> (r: &[JsonValue])
    ensures
        r@ == news_articles(*payload),
{
    if let Some(items) = payload.as_array() {
        return items.as_slice();
    }
    if let Some(items) = payload.get_array("articles") {
        return items.as_slice();
    }
    if let Some(items) = payload.get_array("items") {
        return items.as_slice();
    }
    if let Some(items) = payload.get_array("results") {
        return items.as_slice();
    }
    if let Some(items) = payload.get_array("data") {
        return items.as_slice();
    }
    let empty: &[JsonValue] = &[];
    assert(empty@ =~= Seq::<JsonValue>::empty());
    empty
}

/// The record for one JSON article.
pub fn normalize_json_article(source: &Source, document_url: &str, article: &JsonValue) -> (r: Option<NormalizedPolicyRecord>)
    ensures
        opt_record_matches(r, news_json_record(*source, document_url@, *article)),
{
    let title_names: [&str; 3] = ["title", "headline", "name"];
    let identifier_names: [&str; 3] = ["guid", "id", "uuid"];
    let link_names: [&str; 4] = ["url", "link", "article_url", "web_url"];
    let date_names: [&str; 6] = ["published_at", "publishedAt", "publication_date", "pubDate", "date_published", "date"];
    let description_names: [&str; 4] = ["summary", "description", "content", "excerpt"];
    assert(str_views(title_names@) =~= title_keys());
    assert(str_views(identifier_names@) =~= identifier_keys());
    assert(str_views(link_names@) =~= link_keys());
    assert(str_views(date_names@) =~= date_keys());
    assert(str_views(description_names@) =~= description_keys());
    let title = string_field(article, title_names.as_slice());
    let identifier = string_field(article, identifier_names.as_slice());
    let link = string_field(article, link_names.as_slice());
    let date = string_field(article, date_names.as_slice());
    let source_name = article_source_name(article);
    let description = string_field(article, description_names.as_slice());
    normalize_article(source, document_url, title, identifier, link, date, source_name, description)
}

/// The records of a JSON news document, one per article that has a title and
/// a URL, in document order.
pub fn normalize_json_document(source: &Source, document_url: &str, payload: &JsonValue) -> (records: Vec<NormalizedPolicyRecord>)
    ensures
        records_match(records@, news_json_records(*source, document_url@, *payload)),
{
    let articles = json_articles(payload);
    let ghost f = |a: JsonValue| news_json_record(*source, document_url@, a);
    let mut records: Vec<NormalizedPolicyRecord> = Vec::new();
    let mut i: usize = 0;
    while i < articles.len()
        invariant
            i <= articles@.len(),
            articles@ == news_articles(*payload),
            f == |a: JsonValue| news_json_record(*source, document_url@, a),
            records_match(records@, articles@.take(i as int).filter_map(f)),
        decreases articles.len() - i,
    {
        proof {
            articles@.lemma_filter_map_take_succ(f, i as int);
        }
        match normalize_json_article(source, document_url, &articles[i]) {
            Some(r) => {
                records.push(r);
            },
            None => {},
        }
        i = i + 1;
    }
    assert(articles@.take(articles@.len() as int) =~= articles@);
    records
}

/// The record for one RSS item or Atom entry.
pub open spec fn news_xml_record(source: Source, document_url: Seq<char>, a: ArticleDraft) -> Option<RecordView> {
    news_record(source, document_url, a.title, a.identifier, a.link, a.publication_date, a.source_name, None)
}

pub open spec fn news_xml_records(source: Source, document_url: Seq<char>, articles: Seq<ArticleDraft>) -> Seq<RecordView> {
    articles.filter_map(|a: ArticleDraft| news_xml_record(source, document_url, a))
}

/// The records of the articles read from an RSS or Atom document, one per
/// article with a title and URL, in document order.
pub fn normalize_xml_articles(source: &Source, document_url: &str, articles: Vec<XmlArticle>) -> (records: Vec<NormalizedPolicyRecord>)
    ensures
        records_match(records@, news_xml_records(*source, document_url@, drafts(articles@))),
{
    let ghost all = drafts(articles@);
    let ghost f = |a: ArticleDraft| news_xml_record(*source, document_url@, a);
    let mut articles = articles;
    let mut records: Vec<NormalizedPolicyRecord> = Vec::new();
    let mut i: usize = 0;
    let total = articles.len();
    assert(drafts(articles@).skip(0) =~= all);
    while articles.len() > 0
        invariant
            drafts(articles@) == all.skip(i as int),
            articles@.len() + i == all.len(),
            all.len() == total,
            f == |a: ArticleDraft| news_xml_record(*source, document_url@, a),
            records_match(records@, all.take(i as int).filter_map(f)),
        decreases articles.len(),
    {
        let ghost before = articles@;
        let article = articles.remove(0);
        proof {
            assert(drafts(before)[0] == before[0]@);
            assert(all.skip(i as int)[0] == all[i as int]);
            assert(article@ == all[i as int]);
            assert(articles@ =~= before.drop_first());
            assert(drafts(articles@) =~= drafts(before).drop_first());
            assert(all.skip(i as int).drop_first() =~= all.skip(i + 1));
            assert(drafts(articles@) =~= all.skip(i + 1));
            all.lemma_filter_map_take_succ(f, i as int);
        }
        match normalize_article(
            source,
            document_url,
            article.title,
            article.identifier,
            article.link,
            article.publication_date,
            article.source_name,
            None,
        ) {
            Some(r) => {
                records.push(r);
            },
            None => {},
        }
        i = i + 1;
    }
    assert(all.take(i as int) =~= all);
    records
}

/// What reading an RSS or Atom document gives: the records of the articles
/// the feed rules read from its bytes, or the message of the failure that
/// stops reading.
pub open spec fn news_xml_outcome(source: Source, document: SourceDocument, r: Result<Vec<NormalizedPolicyRecord>, NormalizationError>) -> bool {
    match feed_document(document.body@) {
        Ok(articles) => match r {
            Ok(records) => records_match(records@, news_xml_records(source, document.source_url@, articles)),
            Err(_) => false,
        },
        Err(m) => match r {
            Ok(_) => false,
            Err(e) => e.message_view() == m,
        },
    }
}

/// Parses article-oriented documents from sources categorized as AI news.
#[derive(Clone, Copy, Debug)]
pub struct AiNewsNormalizer;

impl AiNewsNormalizer {
    /// Whether this normalizer processes the source: news sources only.
    pub fn supports(&self, source: &Source) -> (r: bool)
        ensures
            r == (source.category == SourceCategory::News),
    {
        source.category == SourceCategory::News
    }

    /// Whether the document is read as JSON (its media type mentions `json`,
    /// in any letter case) rather than as RSS or Atom XML.
    pub fn reads_json(&self, document: &SourceDocument) -> (r: bool)
        ensures
            r == has_infix(ascii_lower(document.content_type@), "json"@),
    {
        let lower = crate::text::ascii_lower_str(document.content_type);
        let a = chars_of(lower.as_str());
        let b = chars_of("json");
        crate::text::contains_chars(a.as_slice(), b.as_slice())
    }

    /// The records of a JSON news document already parsed.
    pub fn normalize_json(&self, source: &Source, document_url: &str, payload: &JsonValue) -> (records: Vec<NormalizedPolicyRecord>)
        ensures
            records_match(records@, news_json_records(*source, document_url@, *payload)),
    {
        normalize_json_document(source, document_url, payload)
    }

    /// The records of an RSS or Atom document: those of the articles that the
    /// feed rules read from the document, or the reading failure's message.
    pub fn normalize_xml(&self, source: &Source, document: &SourceDocument) -> (r: Result<Vec<NormalizedPolicyRecord>, NormalizationError>)
        ensures
            news_xml_outcome(*source, *document, r),
    {
        let articles = parse_xml_articles(document.body)?;
        let records = normalize_xml_articles(source, document.source_url, articles);
        Ok(records)
    }
}

} // verus!
