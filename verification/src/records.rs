//! Stored policy entries and versions, and the entry-detail answer built from them.
use vstd::prelude::*;

use crate::change_detection::{change_kind, change_kind_of, PolicyChangeKind};
use crate::change_feed::Timestamp;
use crate::date::CalendarDate;
use crate::domain::Region;
use crate::json::JsonValue;

verus! {

/// The current normalized state of a policy entry.
#[derive(Debug)]
pub struct PolicyEntry {
    pub id: i64,
    pub source_id: i64,
    pub title: String,
    pub region: Region,
    pub agency: String,
    pub publication_date: Option<CalendarDate>,
    pub status: String,
    pub source_url: String,
}

/// One immutable observed version of a policy entry.
#[derive(Debug)]
pub struct PolicyVersion {
    pub id: i64,
    pub policy_entry_id: i64,
    pub version_number: i32,
    pub change_kind: PolicyChangeKind,
    pub canonical_content: JsonValue,
    pub content_hash: String,
    pub observed_at: Timestamp,
    pub change_summary: Option<String>,
    pub raw_snapshot_key: Option<String>,
}

/// An entry as the detail answer shows it, with region and category as codes.
#[derive(Debug)]
pub struct EntryDetail {
    pub id: i64,
    pub source_id: i64,
    pub source_external_id: String,
    pub title: String,
    pub region: String,
    pub source_category: String,
    pub agency: String,
    pub publication_date: Option<CalendarDate>,
    pub status: String,
    pub source_url: String,
}

/// A version as the detail answer shows it.
#[derive(Debug)]
pub struct EntryVersionDetail {
    pub id: i64,
    pub version_number: i32,
    pub change_kind: PolicyChangeKind,
    pub canonical_content: JsonValue,
    pub content_hash: String,
    pub observed_at: Timestamp,
    pub change_summary: Option<String>,
}

/// One entry with its version history, newest first.
#[derive(Debug)]
pub struct EntryDetailResponse {
    pub entry: EntryDetail,
    pub versions: Vec<EntryVersionDetail>,
}

/// A stored version as read back, with its change kind as stored text.
#[derive(Debug)]
pub struct VersionRow {
    pub id: i64,
    pub version_number: i32,
    pub change_kind: String,
    pub canonical_content: JsonValue,
    pub content_hash: String,
    pub observed_at: Timestamp,
    pub change_summary: Option<String>,
}

impl VersionRow {
    /// The version as shown, its stored change kind read back.
    pub fn into_detail(self) -> (d: EntryVersionDetail)
        ensures
            d == (EntryVersionDetail {
                id: self.id,
                version_number: self.version_number,
                change_kind: change_kind_of(self.change_kind@),
                canonical_content: self.canonical_content,
                content_hash: self.content_hash,
                observed_at: self.observed_at,
                change_summary: self.change_summary,
            }),
    {
        let kind = change_kind(self.change_kind.as_str());
        EntryVersionDetail {
            id: self.id,
            version_number: self.version_number,
            change_kind: kind,
            canonical_content: self.canonical_content,
            content_hash: self.content_hash,
            observed_at: self.observed_at,
            change_summary: self.change_summary,
        }
    }
}

/// The versions of rows, in the same order, each read back.
pub fn version_details(rows: Vec<VersionRow>) -> (ds: Vec<EntryVersionDetail>)
    ensures
        ds@.len() == rows@.len(),
        forall|i: int| 0 <= i < rows@.len() ==> #[trigger] ds@[i] == (EntryVersionDetail {
            id: rows@[i].id,
            version_number: rows@[i].version_number,
            change_kind: change_kind_of(rows@[i].change_kind@),
            canonical_content: rows@[i].canonical_content,
            content_hash: rows@[i].content_hash,
            observed_at: rows@[i].observed_at,
            change_summary: rows@[i].change_summary,
        }),
{
    let mut rows = rows;
    let ghost given = rows@;
    let mut ds: Vec<EntryVersionDetail> = Vec::new();
    while rows.len() > 0
        invariant
            ds@.len() + rows@.len() == given.len(),
            rows@ == given.skip(ds@.len() as int),
            forall|i: int| 0 <= i < ds@.len() ==> #[trigger] ds@[i] == (EntryVersionDetail {
                id: given[i].id,
                version_number: given[i].version_number,
                change_kind: change_kind_of(given[i].change_kind@),
                canonical_content: given[i].canonical_content,
                content_hash: given[i].content_hash,
                observed_at: given[i].observed_at,
                change_summary: given[i].change_summary,
            }),
        decreases rows.len(),
    {
        let row = rows.remove(0);
        assert(row == given[ds@.len() as int]);
        assert(rows@ =~= given.skip(ds@.len() as int + 1));
        ds.push(row.into_detail());
    }
    ds
}

/// A stored entry as read back, with the category of its source.
#[derive(Debug)]
pub struct EntryRow {
    pub id: i64,
    pub source_id: i64,
    pub source_external_id: String,
    pub title: String,
    pub region: String,
    pub source_category: String,
    pub agency: String,
    pub publication_date: Option<CalendarDate>,
    pub status: String,
    pub source_url: String,
}

impl EntryRow {
    /// The entry as shown, field for field.
    pub fn into_detail(self) -> (d: EntryDetail)
        ensures
            d == (EntryDetail {
                id: self.id,
                source_id: self.source_id,
                source_external_id: self.source_external_id,
                title: self.title,
                region: self.region,
                source_category: self.source_category,
                agency: self.agency,
                publication_date: self.publication_date,
                status: self.status,
                source_url: self.source_url,
            }),
    {
        EntryDetail {
            id: self.id,
            source_id: self.source_id,
            source_external_id: self.source_external_id,
            title: self.title,
            region: self.region,
            source_category: self.source_category,
            agency: self.agency,
            publication_date: self.publication_date,
            status: self.status,
            source_url: self.source_url,
        }
    }
}

/// Failure while loading an entry detail answer.
#[derive(Debug)]
pub enum DetailError {
    /// No entry has the requested identifier.
    NotFound,
    /// The database query failed; its message.
    Database(String),
}

impl DetailError {
    /// The HTTP status answered: 404 for a missing entry, 500 for a database failure.
    pub fn status_code(&self) -> (code: u16)
        ensures
            code == match self {
                DetailError::NotFound => 404u16,
                DetailError::Database(_) => 500u16,
            },
    {
        match self {
            DetailError::NotFound => 404,
            DetailError::Database(_) => 500,
        }
    }
}

} // verus!
