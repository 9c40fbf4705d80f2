//! Source-independent normalization contracts.
use vstd::prelude::*;

use crate::date::{iso_date, CalendarDate};
use crate::domain::{Region, SourceCategory};
use crate::json::{is_text_member, opt_view, JsonValue};

verus! {

/// A configured website or publication tracked for updates.
#[derive(Debug)]
pub struct Source {
    /// Database identifier assigned when the source is created.
    pub id: i64,
    /// Geographic jurisdiction of the publishing government.
    pub region: Region,
    /// Whether the source provides government policy or AI news.
    pub category: SourceCategory,
    /// Organization responsible for the source.
    pub agency: String,
    /// Canonical base URL used to fetch source material.
    pub base_url: String,
    /// Source-specific crawler settings retained as structured JSON.
    pub crawl_config: JsonValue,
    /// Whether scheduled ingestion should include this source.
    pub enabled: bool,
}

/// A source document supplied to a source normalizer.
pub struct SourceDocument<'a> {
    /// URL that produced the document.
    pub source_url: &'a str,
    /// HTTP media type reported by the source.
    pub content_type: &'a str,
    /// Raw response bytes.
    pub body: &'a [u8],
}

/// A normalized record before persistence assigns an entry identifier.
#[derive(Debug)]
pub struct NormalizedPolicyRecord {
    /// Stable identifier supplied by the publishing source.
    pub source_external_id: String,
    /// Human-readable title.
    pub title: String,
    /// Geographic jurisdiction of the source.
    pub region: Region,
    /// Organization responsible for the record.
    pub agency: String,
    /// Publication or effective date, when the source supplies one.
    pub publication_date: Option<CalendarDate>,
    /// Current source-provided status.
    pub status: String,
    /// Canonical link back to the source material.
    pub source_url: String,
    /// Deterministic source fields used for change detection.
    pub canonical_content: JsonValue,
}

/// What a normalized record holds, with its canonical content as a flat list
/// of members whose values are texts or null.
pub struct RecordView {
    pub source_external_id: Seq<char>,
    pub title: Seq<char>,
    pub region: Region,
    pub agency: Seq<char>,
    pub publication_date: Option<CalendarDate>,
    pub status: Seq<char>,
    pub source_url: Seq<char>,
    pub canonical: Seq<(Seq<char>, Option<Seq<char>>)>,
}

/// An object whose members are, in order, the given keys with text-or-null values.
pub open spec fn is_flat_object(v: JsonValue, fields: Seq<(Seq<char>, Option<Seq<char>>)>) -> bool {
    match v {
        JsonValue::Object(members) => {
            &&& members@.len() == fields.len()
            &&& forall|i: int| 0 <= i < fields.len() ==> is_text_member(#[trigger] members@[i], fields[i].0, fields[i].1)
        },
        _ => false,
    }
}

/// The record holds exactly what `v` describes.
pub open spec fn record_matches(r: NormalizedPolicyRecord, v: RecordView) -> bool {
    &&& r.source_external_id@ == v.source_external_id
    &&& r.title@ == v.title
    &&& r.region == v.region
    &&& r.agency@ == v.agency
    &&& r.publication_date == v.publication_date
    &&& r.status@ == v.status
    &&& r.source_url@ == v.source_url
    &&& is_flat_object(r.canonical_content, v.canonical)
}

pub open spec fn records_match(rs: Seq<NormalizedPolicyRecord>, vs: Seq<RecordView>) -> bool {
    &&& rs.len() == vs.len()
    &&& forall|i: int| 0 <= i < vs.len() ==> record_matches(#[trigger] rs[i], vs[i])
}

pub open spec fn opt_record_matches(r: Option<NormalizedPolicyRecord>, v: Option<RecordView>) -> bool {
    match (r, v) {
        (Some(x), Some(y)) => record_matches(x, y),
        (None, None) => true,
        _ => false,
    }
}

/// The ISO text of an optional date, as the canonical content stores it.
pub open spec fn date_text(d: Option<CalendarDate>) -> Option<Seq<char>> {
    match d {
        Some(d) => Some(iso_date(d)),
        None => None,
    }
}

/// Builds a flat object from keys and optional texts.
pub fn flat_object(fields: Vec<(&str, Option<String>)>) -> (v: JsonValue)
    ensures
        is_flat_object(v, fields@.map_values(|f: (&str, Option<String>)| (f.0@, opt_view(f.1)))),
{
    let ghost spec_fields = fields@.map_values(|f: (&str, Option<String>)| (f.0@, opt_view(f.1)));
    let mut members: Vec<(String, JsonValue)> = Vec::new();
    let mut i: usize = 0;
    while i < fields.len()
        invariant
            i <= fields.len(),
            spec_fields == fields@.map_values(|f: (&str, Option<String>)| (f.0@, opt_view(f.1))),
            members@.len() == i,
            forall|k: int| 0 <= k < i ==> is_text_member(#[trigger] members@[k], spec_fields[k].0, spec_fields[k].1),
        decreases fields.len() - i,
    {
        let key = fields[i].0.to_owned();
        let value = crate::json::opt_text(&fields[i].1);
        members.push((key, value));
        i = i + 1;
    }
    JsonValue::Object(members)
}

/// A date's ISO text as an owned string, when present.
pub fn date_string(d: Option<CalendarDate>) -> (r: Option<String>)
    ensures
        opt_view(r) == date_text(d),
{
    match d {
        Some(d) => Some(d.to_iso_string()),
        None => None,
    }
}

/// A source document could not be parsed into records.
#[derive(Clone, Debug, PartialEq, Eq)]
pub struct NormalizationError {
    message: String,
}

impl NormalizationError {
    /// Creates a normalization error suitable for a per-source failure report.
    pub fn new(message: String) -> (e: NormalizationError)
        ensures
            e.message_view() == message@,
    {
        NormalizationError { message }
    }

    pub closed spec fn message_view(&self) -> Seq<char> {
        self.message@
    }

    /// The failure description.
    pub fn message(&self) -> (m: &str)
        ensures
            m@ == self.message_view(),
    {
        self.message.as_str()
    }
}

} // verus!
