//! Normalization for U.S. and Canadian government JSON feeds and HTML publications.
use vstd::prelude::*;

use crate::date::{date_from, date_of, parse_ymd, ymd_date, CalendarDate};
use crate::domain::Region;
use crate::html::{first_attr, first_text, html_first_attr, html_first_text, utf8_error_message, utf8_str};
use crate::json::{first_str, get_array, get_str, json_str, opt_view, str_views, JsonValue};
use crate::normalization::{
    date_string, date_text, flat_object, opt_record_matches, records_match, NormalizationError, NormalizedPolicyRecord,
    RecordView, Source, SourceDocument,
};
use crate::text::{byte_prefix, byte_prefix_chars, chars_of, has_infix, string_from, trim, trim_chars};

verus! {

pub open spec fn or_default(o: Option<Seq<char>>, d: Seq<char>) -> Seq<char> {
    match o {
        Some(s) => s,
        None => d,
    }
}

pub open spec fn us_title_keys() -> Seq<Seq<char>> {
    seq!["title"@, "name"@]
}

pub open spec fn us_url_keys() -> Seq<Seq<char>> {
    seq!["html_url"@, "url"@, "source_url"@]
}

pub open spec fn us_id_keys() -> Seq<Seq<char>> {
    seq!["document_number"@, "id"@, "slug"@]
}

pub open spec fn us_status_keys() -> Seq<Seq<char>> {
    seq!["status"@, "type"@, "document_type"@]
}

pub open spec fn us_date_keys() -> Seq<Seq<char>> {
    seq!["publication_date"@, "effective_date"@, "date"@]
}

pub open spec fn ca_url_keys() -> Seq<Seq<char>> {
    seq!["url"@, "link"@, "html_url"@, "source_url"@]
}

pub open spec fn ca_id_keys() -> Seq<Seq<char>> {
    seq!["id"@, "uuid"@, "identifier"@, "document_number"@]
}

pub open spec fn ca_agency_keys() -> Seq<Seq<char>> {
    seq!["department"@, "organization"@, "agency"@]
}

pub open spec fn ca_status_keys() -> Seq<Seq<char>> {
    seq!["status"@, "type"@, "category"@]
}

pub open spec fn ca_date_keys() -> Seq<Seq<char>> {
    seq!["date_published"@, "publication_date"@, "date"@, "date_modified"@]
}

/// The first entry of a record's `agency_names` array, when it is a string.
pub open spec fn first_agency_name(record: JsonValue) -> Option<Seq<char>> {
    match get_array(record, "agency_names"@) {
        Some(a) => if a.len() > 0 {
            json_str(a[0])
        } else {
            None
        },
        None => None,
    }
}

/// A Canadian date text: its first ten bytes read as `YYYY-MM-DD`.
pub open spec fn canada_date(text: Seq<char>) -> Option<CalendarDate> {
    match byte_prefix(text, 10) {
        Some(p) => date_of(ymd_date(p)),
        None => None,
    }
}

/// The record for one JSON result of a government source, or nothing when
/// it has no title. Texts are taken as they are, without trimming.
pub open spec fn government_record(region: Region, source: Source, fallback_url: Seq<char>, record: JsonValue) -> Option<RecordView> {
    match first_str(record, us_title_keys()) {
        None => None,
        Some(t) => {
            let is_us = region == Region::UnitedStates;
            let url = or_default(first_str(record, if is_us { us_url_keys() } else { ca_url_keys() }), fallback_url);
            let id = or_default(first_str(record, if is_us { us_id_keys() } else { ca_id_keys() }), url);
            let agency = or_default(
                if is_us { first_agency_name(record) } else { first_str(record, ca_agency_keys()) },
                source.agency@,
            );
            let status = or_default(first_str(record, if is_us { us_status_keys() } else { ca_status_keys() }), "published"@);
            let date = match first_str(record, if is_us { us_date_keys() } else { ca_date_keys() }) {
                Some(d) => if is_us { date_of(ymd_date(d)) } else { canada_date(d) },
                None => None,
            };
            Some(
                RecordView {
                    source_external_id: id,
                    title: t,
                    region: region,
                    agency: agency,
                    publication_date: date,
                    status: status,
                    source_url: url,
                    canonical: seq![
                        ("title"@, Some(t)),
                        ("agency"@, Some(agency)),
                        ("publication_date"@, date_text(date)),
                        ("status"@, Some(status)),
                        ("source_url"@, Some(url)),
                    ],
                },
            )
        },
    }
}

/// The agency of a Canadian record is its `department` string, else its
/// `organization` string, else its `agency` string, else the source's agency.
pub proof fn lemma_canadian_agency_order(source: Source, fallback_url: Seq<char>, record: JsonValue)
    ensures
        government_record(Region::Canada, source, fallback_url, record) matches Some(r) ==> r.agency == (
        match get_str(record, "department"@) {
            Some(d) => d,
            None => match get_str(record, "organization"@) {
                Some(o) => o,
                None => match get_str(record, "agency"@) {
                    Some(a) => a,
                    None => source.agency@,
                },
            },
        }),
{
    let keys = ca_agency_keys();
    assert(keys.drop_first().drop_first().drop_first().len() == 0);
    assert(first_str(record, keys.drop_first().drop_first().drop_first()) is None);
    assert(first_str(record, keys.drop_first().drop_first()) == get_str(record, "agency"@));
    assert(first_str(record, keys.drop_first()) == match get_str(record, "organization"@) {
        Some(o) => Some(o),
        None => get_str(record, "agency"@),
    });
}

/// The agency of a U.S. record is the first entry of its `agency_names`
/// array when that entry is a string, else the source's agency.
pub proof fn lemma_us_agency(source: Source, fallback_url: Seq<char>, record: JsonValue, name: Seq<char>)
    ensures
        (get_array(record, "agency_names"@) matches Some(a) && a.len() > 0 && json_str(a[0]) == Some(name))
            ==> (government_record(Region::UnitedStates, source, fallback_url, record) matches Some(r) ==> r.agency == name),
        (get_array(record, "agency_names"@) is None) ==> (government_record(Region::UnitedStates, source, fallback_url, record)
            matches Some(r) ==> r.agency == source.agency@),
{
}

/// The results of a government JSON document: the first listed array member
/// (`results` for U.S. sources; `records`, `items`, `results` for Canadian
/// ones), or else the document itself as the only result.
pub open spec fn government_results(region: Region, payload: JsonValue) -> Seq<JsonValue> {
    if region == Region::UnitedStates {
        match get_array(payload, "results"@) {
            Some(a) => a,
            None => seq![payload],
        }
    } else {
        match get_array(payload, "records"@) {
            Some(a) => a,
            None => match get_array(payload, "items"@) {
                Some(a) => a,
                None => match get_array(payload, "results"@) {
                    Some(a) => a,
                    None => seq![payload],
                },
            },
        }
    }
}

/// The records of a government JSON document, one per result with a title, in order.
pub open spec fn government_json_records(region: Region, source: Source, document_url: Seq<char>, payload: JsonValue) -> Seq<RecordView> {
    government_results(region, payload).filter_map(|r: JsonValue| government_record(region, source, document_url, r))
}

/// The trimmed text of the first heading, when there is one with text.
pub open spec fn heading_title(document: Seq<char>) -> Result<Option<Seq<char>>, Seq<char>> {
    match html_first_text(document, "h1, h2, h3"@) {
        Err(e) => Err("invalid title selector: "@ + e),
        Ok(None) => Ok(None),
        Ok(Some(t)) => Ok(
            if trim(t).len() > 0 {
                Some(trim(t))
            } else {
                None
            },
        ),
    }
}

/// The date of a Canadian publication's first `time[datetime]` element.
pub open spec fn html_date(document: Seq<char>) -> Result<Option<CalendarDate>, Seq<char>> {
    match html_first_attr(document, "time[datetime]"@, "datetime"@) {
        Err(e) => Err("invalid date selector: "@ + e),
        Ok(None) => Ok(None),
        Ok(Some(v)) => Ok(canada_date(v)),
    }
}

/// The record of a government HTML publication: one record titled by its first
/// heading, identified and linked by the document's URL; none without a heading.
pub open spec fn government_html_records(region: Region, source: Source, document_url: Seq<char>, document: Seq<char>) -> Result<Seq<RecordView>, Seq<char>> {
    match heading_title(document) {
        Err(e) => Err(e),
        Ok(None) => Ok(Seq::empty()),
        Ok(Some(t)) => {
            let dated = if region == Region::UnitedStates {
                Ok(None)
            } else {
                html_date(document)
            };
            match dated {
                Err(e) => Err(e),
                Ok(date) => Ok(
                    seq![
                        RecordView {
                            source_external_id: document_url,
                            title: t,
                            region: region,
                            agency: source.agency@,
                            publication_date: date,
                            status: "published"@,
                            source_url: document_url,
                            canonical: if region == Region::UnitedStates {
                                seq![
                                    ("title"@, Some(t)),
                                    ("agency"@, Some(source.agency@)),
                                    ("status"@, Some("published"@)),
                                    ("source_url"@, Some(document_url)),
                                ]
                            } else {
                                seq![
                                    ("title"@, Some(t)),
                                    ("agency"@, Some(source.agency@)),
                                    ("publication_date"@, date_text(date)),
                                    ("status"@, Some("published"@)),
                                    ("source_url"@, Some(document_url)),
                                ]
                            },
                        },
                    ],
                ),
            }
        },
    }
}

pub open spec fn records_result_match(
    r: Result<Vec<NormalizedPolicyRecord>, NormalizationError>,
    expected: Result<Seq<RecordView>, Seq<char>>,
) -> bool {
    match (r, expected) {
        (Ok(records), Ok(views)) => records_match(records@, views),
        (Err(e), Err(m)) => e.message_view() == m,
        _ => false,
    }
}

fn text_or(record: &JsonValue, keys: &[&str], default: &str) -> (r: String)
    ensures
        r@ == or_default(first_str(*record, str_views(keys@)), default@),
{
    match record.first_str(keys) {
        Some(s) => s,
        None => default.to_owned(),
    }
}

fn text_or_string(record: &JsonValue, keys: &[&str], default: &String) -> (r: String)
    ensures
        r@ == or_default(first_str(*record, str_views(keys@)), default@),
{
    match record.first_str(keys) {
        Some(s) => s,
        None => default.clone(),
    }
}

/// A Canadian date text: its first ten bytes read as `YYYY-MM-DD`.
pub fn parse_date(value: &str) -> (d: Option<CalendarDate>)
    ensures
        d == canada_date(value@),
{
    let chars = chars_of(value);
    match byte_prefix_chars(chars.as_slice(), 10) {
        Some(p) => {
            let text = string_from(p.as_slice());
            date_from(parse_ymd(text.as_str()))
        },
        None => None,
    }
}

fn agency_name(region: Region, source: &Source, record: &JsonValue) -> (r: String)
    ensures
        r@ == or_default(
            if region == Region::UnitedStates { first_agency_name(*record) } else { first_str(*record, ca_agency_keys()) },
            source.agency@,
        ),
{
    if region == Region::UnitedStates {
        match record.get_array("agency_names") {
            Some(names) => {
                if names.len() > 0 {
                    match names[0].as_str() {
                        Some(s) => {
                            return s.to_owned();
                        },
                        None => {},
                    }
                }
            },
            None => {},
        }
        source.agency.clone()
    } else {
        let keys: [&str; 3] = ["department", "organization", "agency"];
        assert(str_views(keys@) =~= ca_agency_keys());
        text_or_string(record, keys.as_slice(), &source.agency)
    }
}

/// The record for one JSON result of a government source.
pub fn government_json_record(region: Region, source: &Source, fallback_url: &str, record: &JsonValue) -> (r: Option<NormalizedPolicyRecord>)
    ensures
        opt_record_matches(r, government_record(region, *source, fallback_url@, *record)),
{
    let is_us = region == Region::UnitedStates;
    let title_keys: [&str; 2] = ["title", "name"];
    assert(str_views(title_keys@) =~= us_title_keys());
    let title = match record.first_str(title_keys.as_slice()) {
        Some(t) => t,
        None => {
            return None;
        },
    };
    let us_urls: [&str; 3] = ["html_url", "url", "source_url"];
    let ca_urls: [&str; 4] = ["url", "link", "html_url", "source_url"];
    let us_ids: [&str; 3] = ["document_number", "id", "slug"];
    let ca_ids: [&str; 4] = ["id", "uuid", "identifier", "document_number"];
    let us_statuses: [&str; 3] = ["status", "type", "document_type"];
    let ca_statuses: [&str; 3] = ["status", "type", "category"];
    let us_dates: [&str; 3] = ["publication_date", "effective_date", "date"];
    let ca_dates: [&str; 4] = ["date_published", "publication_date", "date", "date_modified"];
    assert(str_views(us_urls@) =~= us_url_keys());
    assert(str_views(ca_urls@) =~= ca_url_keys());
    assert(str_views(us_ids@) =~= us_id_keys());
    assert(str_views(ca_ids@) =~= ca_id_keys());
    assert(str_views(us_statuses@) =~= us_status_keys());
    assert(str_views(ca_statuses@) =~= ca_status_keys());
    assert(str_views(us_dates@) =~= us_date_keys());
    assert(str_views(ca_dates@) =~= ca_date_keys());
    let source_url = text_or(record, if is_us { us_urls.as_slice() } else { ca_urls.as_slice() }, fallback_url);
    let source_external_id = text_or_string(record, if is_us { us_ids.as_slice() } else { ca_ids.as_slice() }, &source_url);
    let agency = agency_name(region, source, record);
    let status = text_or(record, if is_us { us_statuses.as_slice() } else { ca_statuses.as_slice() }, "published");
    let date = match record.first_str(if is_us { us_dates.as_slice() } else { ca_dates.as_slice() }) {
        Some(d) => if is_us {
            date_from(parse_ymd(d.as_str()))
        } else {
            parse_date(d.as_str())
        },
        None => None,
    };
    let mut fields: Vec<(&str, Option<String>)> = Vec::new();
    fields.push(("title", Some(title.clone())));
    fields.push(("agency", Some(agency.clone())));
    fields.push(("publication_date", date_string(date)));
    fields.push(("status", Some(status.clone())));
    fields.push(("source_url", Some(source_url.clone())));
    let ghost fs = fields@;
    let canonical_content = flat_object(fields);
    proof {
        let m = fs.map_values(|f: (&str, Option<String>)| (f.0@, opt_view(f.1)));
        let expected = government_record(region, *source, fallback_url@, *record);
        assert(m =~= expected.unwrap().canonical);
    }
    Some(
        NormalizedPolicyRecord {
            source_external_id,
            title,
            region,
            agency,
            publication_date: date,
            status,
            source_url,
            canonical_content,
        },
    )
}

/// The records of a government JSON document, one per result with a title, in order.
pub fn normalize_government_json(region: Region, source: &Source, document_url: &str, payload: &JsonValue) -> (records: Vec<NormalizedPolicyRecord>)
    ensures
        records_match(records@, government_json_records(region, *source, document_url@, *payload)),
{
    let ghost f = |r: JsonValue| government_record(region, *source, document_url@, r);
    let listed = if region == Region::UnitedStates {
        payload.get_array("results")
    } else {
        match payload.get_array("records") {
            Some(a) => Some(a),
            None => match payload.get_array("items") {
                Some(a) => Some(a),
                None => payload.get_array("results"),
            },
        }
    };
    let mut records: Vec<NormalizedPolicyRecord> = Vec::new();
    match listed {
        None => {
            proof {
                Seq::<JsonValue>::lemma_filter_map_singleton(*payload, f);
            }
            match government_json_record(region, source, document_url, payload) {
                Some(r) => {
                    records.push(r);
                },
                None => {},
            }
            records
        },
        Some(items) => {
            let mut i: usize = 0;
            while i < items.len()
                invariant
                    i <= items@.len(),
                    items@ == government_results(region, *payload),
                    f == |r: JsonValue| government_record(region, *source, document_url@, r),
                    records_match(records@, items@.take(i as int).filter_map(f)),
                decreases items.len() - i,
            {
                proof {
                    items@.lemma_filter_map_take_succ(f, i as int);
                }
                match government_json_record(region, source, document_url, &items[i]) {
                    Some(r) => {
                        records.push(r);
                    },
                    None => {},
                }
                i = i + 1;
            }
            assert(items@.take(items@.len() as int) =~= items@);
            records
        },
    }
}

fn prefixed(prefix: &str, detail: &str) -> (e: NormalizationError)
    ensures
        e.message_view() == prefix@ + detail@,
{
    let mut v = chars_of(prefix);
    crate::text::append_str(&mut v, detail);
    NormalizationError::new(string_from(v.as_slice()))
}

/// The record of a government HTML publication.
pub fn normalize_government_html(region: Region, source: &Source, document: &SourceDocument) -> (r: Result<Vec<NormalizedPolicyRecord>, NormalizationError>)
    ensures
        !vstd::utf8::valid_utf8(document.body@) ==> match r {
            Err(e) => e.message_view() == "source HTML was not UTF-8: "@ + utf8_error_message(document.body@),
            Ok(_) => false,
        },
        forall|text: Seq<char>| #[trigger] vstd::utf8::encode_utf8(text) == document.body@ ==>
            records_result_match(r, government_html_records(region, *source, document.source_url@, text)),
{
    let body = match utf8_str(document.body) {
        Ok(body) => body,
        Err(error) => {
            proof {
                assert forall|text: Seq<char>| #[trigger] vstd::utf8::encode_utf8(text) == document.body@ implies false by {
                    vstd::utf8::encode_utf8_valid_utf8(text);
                }
            }
            return Err(prefixed("source HTML was not UTF-8: ", error.as_str()));
        },
    };
    proof {
        assert forall|text: Seq<char>| #[trigger] vstd::utf8::encode_utf8(text) == document.body@ implies text == body@ by {
            vstd::utf8::encode_utf8_decode_utf8(text);
            vstd::utf8::encode_utf8_decode_utf8(body@);
        }
    }
    let heading = match first_text(body, "h1, h2, h3") {
        Ok(h) => h,
        Err(error) => {
            return Err(prefixed("invalid title selector: ", error.as_str()));
        },
    };
    let title = match heading {
        Some(h) => {
            let chars = chars_of(h.as_str());
            let t = trim_chars(chars.as_slice());
            if t.len() == 0 {
                return Ok(Vec::new());
            }
            string_from(t.as_slice())
        },
        None => {
            return Ok(Vec::new());
        },
    };
    let date = if region == Region::UnitedStates {
        None
    } else {
        match first_attr(body, "time[datetime]", "datetime") {
            Ok(Some(v)) => parse_date(v.as_str()),
            Ok(None) => None,
            Err(error) => {
                return Err(prefixed("invalid date selector: ", error.as_str()));
            },
        }
    };
    let mut fields: Vec<(&str, Option<String>)> = Vec::new();
    fields.push(("title", Some(title.clone())));
    fields.push(("agency", Some(source.agency.clone())));
    if region != Region::UnitedStates {
        fields.push(("publication_date", date_string(date)));
    }
    fields.push(("status", Some("published".to_owned())));
    fields.push(("source_url", Some(document.source_url.to_owned())));
    let ghost fs = fields@;
    let canonical_content = flat_object(fields);
    let record = NormalizedPolicyRecord {
        source_external_id: document.source_url.to_owned(),
        title,
        region,
        agency: source.agency.clone(),
        publication_date: date,
        status: "published".to_owned(),
        source_url: document.source_url.to_owned(),
        canonical_content,
    };
    let mut records: Vec<NormalizedPolicyRecord> = Vec::new();
    records.push(record);
    proof {
        let m = fs.map_values(|f: (&str, Option<String>)| (f.0@, opt_view(f.1)));
        let expected = government_html_records(region, *source, document.source_url@, body@);
        match expected {
            Ok(views) => {
                assert(m =~= views[0].canonical);
            },
            Err(_) => {},
        }
    }
    Ok(records)
}

/// Parses U.S. government JSON feeds and HTML publications.
#[derive(Clone, Copy, Debug)]
pub struct UsGovernmentNormalizer;

/// Parses Canadian government JSON feeds and HTML publications.
#[derive(Clone, Copy, Debug)]
pub struct CanadaGovernmentNormalizer;

/// Whether a media type mentions `json` (letter case as given).
pub fn mentions_json(content_type: &str) -> (r: bool)
    ensures
        r == has_infix(content_type@, "json"@),
{
    let a = chars_of(content_type);
    let b = chars_of("json");
    crate::text::contains_chars(a.as_slice(), b.as_slice())
}

impl UsGovernmentNormalizer {
    /// Whether this normalizer processes the source: U.S. sources only.
    pub fn supports(&self, source: &Source) -> (r: bool)
        ensures
            r == (source.region == Region::UnitedStates),
    {
        source.region == Region::UnitedStates
    }

    /// Whether the document is read as JSON rather than as HTML.
    pub fn reads_json(&self, document: &SourceDocument) -> (r: bool)
        ensures
            r == has_infix(document.content_type@, "json"@),
    {
        mentions_json(document.content_type)
    }

    /// The records of a U.S. JSON document already parsed.
    pub fn normalize_json(&self, source: &Source, document_url: &str, payload: &JsonValue) -> (records: Vec<NormalizedPolicyRecord>)
        ensures
            records_match(records@, government_json_records(Region::UnitedStates, *source, document_url@, *payload)),
    {
        normalize_government_json(Region::UnitedStates, source, document_url, payload)
    }

    /// The record of a U.S. HTML publication.
    pub fn normalize_html(&self, source: &Source, document: &SourceDocument) -> (r: Result<Vec<NormalizedPolicyRecord>, NormalizationError>)
        ensures
            !vstd::utf8::valid_utf8(document.body@) ==> r is Err,
            forall|text: Seq<char>| #[trigger] vstd::utf8::encode_utf8(text) == document.body@ ==>
                records_result_match(r, government_html_records(Region::UnitedStates, *source, document.source_url@, text)),
    {
        normalize_government_html(Region::UnitedStates, source, document)
    }
}

impl CanadaGovernmentNormalizer {
    /// Whether this normalizer processes the source: Canadian sources only.
    pub fn supports(&self, source: &Source) -> (r: bool)
        ensures
            r == (source.region == Region::Canada),
    {
        source.region == Region::Canada
    }

    /// Whether the document is read as JSON rather than as HTML.
    pub fn reads_json(&self, document: &SourceDocument) -> (r: bool)
        ensures
            r == has_infix(document.content_type@, "json"@),
    {
        mentions_json(document.content_type)
    }

    /// The records of a Canadian JSON document already parsed.
    pub fn normalize_json(&self, source: &Source, document_url: &str, payload: &JsonValue) -> (records: Vec<NormalizedPolicyRecord>)
        ensures
            records_match(records@, government_json_records(Region::Canada, *source, document_url@, *payload)),
    {
        normalize_government_json(Region::Canada, source, document_url, payload)
    }

    /// The record of a Canadian HTML publication.
    pub fn normalize_html(&self, source: &Source, document: &SourceDocument) -> (r: Result<Vec<NormalizedPolicyRecord>, NormalizationError>)
        ensures
            !vstd::utf8::valid_utf8(document.body@) ==> r is Err,
            forall|text: Seq<char>| #[trigger] vstd::utf8::encode_utf8(text) == document.body@ ==>
                records_result_match(r, government_html_records(Region::Canada, *source, document.source_url@, text)),
    {
        normalize_government_html(Region::Canada, source, document)
    }
}

} // verus!
