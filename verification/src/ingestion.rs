//! The decisions of one ingestion pass: which normalizer reads a source, how
//! a fetched document is read, and what is recorded of each source run.
use vstd::prelude::*;

use crate::change_detection::ChangeDetectionOutcome;
use crate::domain::{category_from_code, region_from_code, Region, SourceCategory};
use crate::government::{government_html_records, government_json_records, records_result_match, CanadaGovernmentNormalizer, UsGovernmentNormalizer};
use crate::json::JsonValue;
use crate::json_codec::{json_result_view, parse_json, parsed_json};
use crate::news::{news_json_records, news_xml_outcome, AiNewsNormalizer};
use crate::normalization::{records_match, NormalizationError, NormalizedPolicyRecord, Source, SourceDocument};
use crate::text::{append_str, ascii_lower, byte_prefix, byte_prefix_chars, chars_of, has_infix, string_from, utf8_width};

verus! {

/// The normalizers an ingestion pass can hand a document to.
#[derive(Clone, Copy, Debug, PartialEq, Eq, Structural)]
pub enum Normalizer {
    UsGovernment,
    CanadaGovernment,
    AiNews,
}

/// Whether normalizer `n` processes `source`: U.S. and Canadian government
/// normalizers by region, the news normalizer by category.
pub open spec fn normalizer_supports(n: Normalizer, source: Source) -> bool {
    match n {
        Normalizer::UsGovernment => source.region == Region::UnitedStates,
        Normalizer::CanadaGovernment => source.region == Region::Canada,
        Normalizer::AiNews => source.category == SourceCategory::News,
    }
}

/// Whether normalizer `n` reads a document of this media type as JSON: the
/// government normalizers when it mentions `json`, the news normalizer in any
/// letter case.
pub open spec fn normalizer_reads_json(n: Normalizer, content_type: Seq<char>) -> bool {
    match n {
        Normalizer::AiNews => has_infix(ascii_lower(content_type), "json"@),
        _ => has_infix(content_type, "json"@),
    }
}

/// The words put before a JSON parse error by normalizer `n`.
pub open spec fn json_error_prefix(n: Normalizer) -> Seq<char> {
    match n {
        Normalizer::AiNews => "invalid news JSON document: "@,
        _ => "invalid JSON source document: "@,
    }
}

/// The records normalizer `n` reads from a parsed JSON document.
pub open spec fn json_records(n: Normalizer, source: Source, document_url: Seq<char>, payload: JsonValue) -> Seq<
    crate::normalization::RecordView,
> {
    match n {
        Normalizer::UsGovernment => government_json_records(Region::UnitedStates, source, document_url, payload),
        Normalizer::CanadaGovernment => government_json_records(Region::Canada, source, document_url, payload),
        Normalizer::AiNews => news_json_records(source, document_url, payload),
    }
}

/// What normalizer `n` gives for a JSON document whose body parsed as
/// `parsed`: the records of the parsed value, or the parser's message after
/// this normalizer's words for an invalid document.
pub open spec fn json_outcome(
    n: Normalizer,
    source: Source,
    document_url: Seq<char>,
    parsed: Result<JsonValue, Seq<char>>,
    r: Result<Vec<NormalizedPolicyRecord>, NormalizationError>,
) -> bool {
    match (parsed, r) {
        (Ok(payload), Ok(records)) => records_match(records@, json_records(n, source, document_url, payload)),
        (Err(m), Err(e)) => e.message_view() == json_error_prefix(n) + m,
        _ => false,
    }
}

impl Normalizer {
    /// Whether this normalizer processes the source.
    pub fn supports(&self, source: &Source) -> (r: bool)
        ensures
            r == normalizer_supports(*self, *source),
    {
        match self {
            Normalizer::UsGovernment => UsGovernmentNormalizer.supports(source),
            Normalizer::CanadaGovernment => CanadaGovernmentNormalizer.supports(source),
            Normalizer::AiNews => AiNewsNormalizer.supports(source),
        }
    }

    /// Whether the document is read as JSON rather than as markup.
    pub fn reads_json(&self, document: &SourceDocument) -> (r: bool)
        ensures
            r == normalizer_reads_json(*self, document.content_type@),
    {
        match self {
            Normalizer::UsGovernment => UsGovernmentNormalizer.reads_json(document),
            Normalizer::CanadaGovernment => CanadaGovernmentNormalizer.reads_json(document),
            Normalizer::AiNews => AiNewsNormalizer.reads_json(document),
        }
    }

    /// The records of a JSON document, given the outcome of parsing its body:
    /// the parsed value, or the parser's message, which is reported after
    /// this normalizer's words for an invalid document.
    pub fn normalize_json(&self, source: &Source, document_url: &str, parsed: Result<JsonValue, String>) -> (r: Result<
        Vec<NormalizedPolicyRecord>,
        NormalizationError,
    >)
        ensures
            json_outcome(*self, *source, document_url@, json_result_view(parsed), r),
    {
        match parsed {
            Ok(payload) => {
                let records = match self {
                    Normalizer::UsGovernment => UsGovernmentNormalizer.normalize_json(source, document_url, &payload),
                    Normalizer::CanadaGovernment => CanadaGovernmentNormalizer.normalize_json(source, document_url, &payload),
                    Normalizer::AiNews => AiNewsNormalizer.normalize_json(source, document_url, &payload),
                };
                Ok(records)
            },
            Err(m) => {
                let prefix = match self {
                    Normalizer::AiNews => "invalid news JSON document: ",
                    _ => "invalid JSON source document: ",
                };
                let mut v = chars_of(prefix);
                append_str(&mut v, m.as_str());
                assert(v@ =~= json_error_prefix(*self) + m@);
                Err(NormalizationError::new(string_from(v.as_slice())))
            },
        }
    }
}

/// What normalizer `n` may give for a markup document: for the government
/// normalizers an error when the body is not UTF-8, and otherwise the records
/// of the HTML publication; for the news normalizer, the records of the
/// articles that the feed rules read from the document, or the reading
/// failure's message.
pub open spec fn markup_outcome(
    n: Normalizer,
    source: Source,
    document: SourceDocument,
    r: Result<Vec<NormalizedPolicyRecord>, NormalizationError>,
) -> bool {
    match n {
        Normalizer::AiNews => news_xml_outcome(source, document, r),
        _ => {
            let region = if n == Normalizer::UsGovernment { Region::UnitedStates } else { Region::Canada };
            &&& !vstd::utf8::valid_utf8(document.body@) ==> r is Err
            &&& forall|text: Seq<char>| #[trigger] vstd::utf8::encode_utf8(text) == document.body@ ==>
                records_result_match(r, government_html_records(region, source, document.source_url@, text))
        },
    }
}

impl Normalizer {
    /// The records of a document that is not read as JSON: an HTML
    /// publication for the government normalizers, an RSS or Atom feed for
    /// the news normalizer.
    pub fn normalize_markup(&self, source: &Source, document: &SourceDocument) -> (r: Result<
        Vec<NormalizedPolicyRecord>,
        NormalizationError,
    >)
        ensures
            markup_outcome(*self, *source, *document, r),
    {
        match self {
            Normalizer::UsGovernment => UsGovernmentNormalizer.normalize_html(source, document),
            Normalizer::CanadaGovernment => CanadaGovernmentNormalizer.normalize_html(source, document),
            Normalizer::AiNews => AiNewsNormalizer.normalize_xml(source, document),
        }
    }
}

/// What normalizer `n` gives for a document: when its media type is read as
/// JSON, the JSON outcome for what serde_json makes of the body; otherwise
/// the markup outcome.
pub open spec fn document_outcome(
    n: Normalizer,
    source: Source,
    document: SourceDocument,
    r: Result<Vec<NormalizedPolicyRecord>, NormalizationError>,
) -> bool {
    if normalizer_reads_json(n, document.content_type@) {
        json_outcome(n, source, document.source_url@, parsed_json(document.body@), r)
    } else {
        markup_outcome(n, source, document, r)
    }
}

impl Normalizer {
    /// Normalizes a fetched document: a JSON document is parsed and its
    /// records read; any other document is read as markup.
    pub fn normalize(&self, source: &Source, document: &SourceDocument) -> (r: Result<
        Vec<NormalizedPolicyRecord>,
        NormalizationError,
    >)
        ensures
            document_outcome(*self, *source, *document, r),
    {
        if self.reads_json(document) {
            let parsed = parse_json(document.body);
            self.normalize_json(source, document.source_url, parsed)
        } else {
            self.normalize_markup(source, document)
        }
    }
}

/// Normalizes a fetched document with the first normalizer that supports
/// its source; a source that no normalizer supports gives no records.
pub fn normalize_document(normalizers: &[Normalizer], source: &Source, document: &SourceDocument) -> (r: Result<
    Vec<NormalizedPolicyRecord>,
    NormalizationError,
>)
    ensures
        match first_supporting(normalizers@, *source) {
            Some(i) => document_outcome(normalizers@[i], *source, *document, r),
            None => r matches Ok(records) && records@.len() == 0,
        },
{
    match select_normalizer(normalizers, source) {
        Some(i) => normalizers[i].normalize(source, document),
        None => Ok(Vec::new()),
    }
}

/// A normalizer of one kind of source: which sources it processes, and what
/// it makes of a fetched document.
pub trait PolicyNormalizer {
    /// Whether the normalizer processes `source`.
    spec fn supports_source(&self, source: Source) -> bool;

    /// Whether `r` is what the normalizer gives for `document` of `source`.
    spec fn normalized(&self, source: Source, document: SourceDocument, r: Result<Vec<NormalizedPolicyRecord>, NormalizationError>) -> bool;

    /// Returns whether this normalizer can process the configured source.
    fn supports(&self, source: &Source) -> (r: bool)
        ensures
            r == self.supports_source(*source),
    ;

    /// Parses a fetched source document into normalized records.
    fn normalize(&self, source: &Source, document: &SourceDocument) -> (r: Result<Vec<NormalizedPolicyRecord>, NormalizationError>)
        ensures
            self.normalized(*source, *document, r),
    ;
}

impl PolicyNormalizer for Normalizer {
    open spec fn supports_source(&self, source: Source) -> bool {
        normalizer_supports(*self, source)
    }

    open spec fn normalized(&self, source: Source, document: SourceDocument, r: Result<Vec<NormalizedPolicyRecord>, NormalizationError>) -> bool {
        document_outcome(*self, source, document, r)
    }

    fn supports(&self, source: &Source) -> (r: bool) {
        Normalizer::supports(self, source)
    }

    fn normalize(&self, source: &Source, document: &SourceDocument) -> (r: Result<Vec<NormalizedPolicyRecord>, NormalizationError>) {
        Normalizer::normalize(self, source, document)
    }
}

impl PolicyNormalizer for UsGovernmentNormalizer {
    open spec fn supports_source(&self, source: Source) -> bool {
        normalizer_supports(Normalizer::UsGovernment, source)
    }

    open spec fn normalized(&self, source: Source, document: SourceDocument, r: Result<Vec<NormalizedPolicyRecord>, NormalizationError>) -> bool {
        document_outcome(Normalizer::UsGovernment, source, document, r)
    }

    fn supports(&self, source: &Source) -> (r: bool) {
        UsGovernmentNormalizer::supports(self, source)
    }

    fn normalize(&self, source: &Source, document: &SourceDocument) -> (r: Result<Vec<NormalizedPolicyRecord>, NormalizationError>) {
        Normalizer::UsGovernment.normalize(source, document)
    }
}

impl PolicyNormalizer for CanadaGovernmentNormalizer {
    open spec fn supports_source(&self, source: Source) -> bool {
        normalizer_supports(Normalizer::CanadaGovernment, source)
    }

    open spec fn normalized(&self, source: Source, document: SourceDocument, r: Result<Vec<NormalizedPolicyRecord>, NormalizationError>) -> bool {
        document_outcome(Normalizer::CanadaGovernment, source, document, r)
    }

    fn supports(&self, source: &Source) -> (r: bool) {
        CanadaGovernmentNormalizer::supports(self, source)
    }

    fn normalize(&self, source: &Source, document: &SourceDocument) -> (r: Result<Vec<NormalizedPolicyRecord>, NormalizationError>) {
        Normalizer::CanadaGovernment.normalize(source, document)
    }
}

impl PolicyNormalizer for AiNewsNormalizer {
    open spec fn supports_source(&self, source: Source) -> bool {
        normalizer_supports(Normalizer::AiNews, source)
    }

    open spec fn normalized(&self, source: Source, document: SourceDocument, r: Result<Vec<NormalizedPolicyRecord>, NormalizationError>) -> bool {
        document_outcome(Normalizer::AiNews, source, document, r)
    }

    fn supports(&self, source: &Source) -> (r: bool) {
        AiNewsNormalizer::supports(self, source)
    }

    fn normalize(&self, source: &Source, document: &SourceDocument) -> (r: Result<Vec<NormalizedPolicyRecord>, NormalizationError>) {
        Normalizer::AiNews.normalize(source, document)
    }
}

/// The position of the first normalizer in `normalizers` that processes `source`.
pub open spec fn first_supporting(normalizers: Seq<Normalizer>, source: Source) -> Option<int>
    decreases normalizers.len(),
{
    if normalizers.len() == 0 {
        None
    } else if normalizer_supports(normalizers[0], source) {
        Some(0)
    } else {
        match first_supporting(normalizers.drop_first(), source) {
            Some(i) => Some(i + 1),
            None => None,
        }
    }
}

/// Picks the normalizer for a source: the first in order that supports it.
pub fn select_normalizer(normalizers: &[Normalizer], source: &Source) -> (r: Option<usize>)
    ensures
        match r {
            Some(i) => first_supporting(normalizers@, *source) == Some(i as int),
            None => first_supporting(normalizers@, *source) is None,
        },
        match r {
            Some(i) => i < normalizers.len() && normalizer_supports(normalizers@[i as int], *source) && forall|j: int|
                0 <= j < i ==> !normalizer_supports(#[trigger] normalizers@[j], *source),
            None => forall|j: int| 0 <= j < normalizers.len() ==> !normalizer_supports(#[trigger] normalizers@[j], *source),
        },
{
    let mut i: usize = 0;
    assert(normalizers@.skip(0) =~= normalizers@);
    while i < normalizers.len()
        invariant
            i <= normalizers.len(),
            forall|j: int| 0 <= j < i ==> !normalizer_supports(#[trigger] normalizers@[j], *source),
            first_supporting(normalizers@, *source) == match first_supporting(normalizers@.skip(i as int), *source) {
                Some(k) => Some(k + i),
                None => None::<int>,
            },
        decreases normalizers.len() - i,
    {
        assert(normalizers@.skip(i as int)[0] == normalizers@[i as int]);
        assert(normalizers@.skip(i as int).drop_first() =~= normalizers@.skip(i + 1));
        if normalizers[i].supports(source) {
            return Some(i);
        }
        i = i + 1;
    }
    None
}

/// A source as stored: region and category as their codes.
#[derive(Debug)]
pub struct SourceRow {
    pub id: i64,
    pub region: String,
    pub category: String,
    pub agency: String,
    pub base_url: String,
    pub crawl_config: JsonValue,
    pub enabled: bool,
}

/// The source a stored row describes, or the message for an unknown code,
/// the region checked first.
pub fn source_from_row(row: SourceRow) -> (r: Result<Source, String>)
    ensures
        match region_from_code(row.region@) {
            None => r matches Err(m) && m@ == "unknown source region: "@ + row.region@,
            Some(region) => match category_from_code(row.category@) {
                None => r matches Err(m) && m@ == "unknown source category: "@ + row.category@,
                Some(category) => r == Ok::<Source, String>(
                    Source {
                        id: row.id,
                        region,
                        category,
                        agency: row.agency,
                        base_url: row.base_url,
                        crawl_config: row.crawl_config,
                        enabled: row.enabled,
                    },
                ),
            },
        },
{
    let region = match Region::from_code(row.region.as_str()) {
        Some(r) => r,
        None => {
            let mut v = chars_of("unknown source region: ");
            append_str(&mut v, row.region.as_str());
            proof {
                reveal_strlit("unknown source region: ");
            }
            return Err(string_from(v.as_slice()));
        },
    };
    let category = match SourceCategory::from_code(row.category.as_str()) {
        Some(c) => c,
        None => {
            let mut v = chars_of("unknown source category: ");
            append_str(&mut v, row.category.as_str());
            return Err(string_from(v.as_slice()));
        },
    };
    Ok(
        Source {
            id: row.id,
            region,
            category,
            agency: row.agency,
            base_url: row.base_url,
            crawl_config: row.crawl_config,
            enabled: row.enabled,
        },
    )
}

/// A count as stored in a 32-bit column: itself, or the largest such value when larger.
pub fn count_column(n: usize) -> (c: i32)
    ensures
        c == if n <= i32::MAX { n as int } else { i32::MAX as int },
{
    if n <= 2147483647usize {
        n as i32
    } else {
        i32::MAX
    }
}

/// The longest failure message kept for a source run, in bytes.
pub const MAX_FAILURE_MESSAGE_BYTES: usize = 4000;

/// Bytes in the UTF-8 encoding of a text.
pub open spec fn utf8_len(s: Seq<char>) -> int
    decreases s.len(),
{
    if s.len() == 0 {
        0
    } else {
        utf8_width(s[0]) + utf8_len(s.drop_first())
    }
}

/// The failure message kept for a source run: the first 4000 bytes of the
/// message, or all of it when shorter.
pub open spec fn failure_excerpt(message: Seq<char>) -> Seq<char> {
    match byte_prefix(message, MAX_FAILURE_MESSAGE_BYTES as int) {
        Some(p) => p,
        None => message,
    }
}

/// Cuts a failure message to what a source run keeps. The cut must fall on a
/// character boundary when the message is longer than the limit.
pub fn failure_message(message: &str) -> (r: String)
    requires
        utf8_len(message@) <= MAX_FAILURE_MESSAGE_BYTES || byte_prefix(message@, MAX_FAILURE_MESSAGE_BYTES as int) is Some,
    ensures
        r@ == failure_excerpt(message@),
{
    let v = chars_of(message);
    match byte_prefix_chars(v.as_slice(), MAX_FAILURE_MESSAGE_BYTES) {
        Some(p) => string_from(p.as_slice()),
        None => message.to_owned(),
    }
}

/// What a successful source run records.
#[derive(Debug)]
pub struct SourceProcessOutcome {
    pub raw_snapshot_key: String,
    pub records_processed: usize,
    pub change_detection: ChangeDetectionOutcome,
}

/// The four counts of a successful run as stored: records processed, new,
/// updated and unchanged entries.
pub fn outcome_columns(outcome: &SourceProcessOutcome) -> (c: (i32, i32, i32, i32))
    ensures
        c.0 == if outcome.records_processed <= i32::MAX { outcome.records_processed as int } else { i32::MAX as int },
        c.1 == if outcome.change_detection.new_entries <= i32::MAX {
            outcome.change_detection.new_entries as int
        } else {
            i32::MAX as int
        },
        c.2 == if outcome.change_detection.updated_entries <= i32::MAX {
            outcome.change_detection.updated_entries as int
        } else {
            i32::MAX as int
        },
        c.3 == if outcome.change_detection.unchanged_entries <= i32::MAX {
            outcome.change_detection.unchanged_entries as int
        } else {
            i32::MAX as int
        },
{
    (
        count_column(outcome.records_processed),
        count_column(outcome.change_detection.new_entries),
        count_column(outcome.change_detection.updated_entries),
        count_column(outcome.change_detection.unchanged_entries),
    )
}

/// How processing one source ended.
#[derive(Clone, Copy, Debug, PartialEq, Eq, Structural)]
pub enum SourceResult {
    Succeeded,
    Failed,
}

/// What an ingestion pass does next.
#[derive(Clone, Copy, Debug, PartialEq, Eq, Structural)]
pub enum PassAction {
    /// Process the enabled source at this position.
    Process(usize),
    /// Every enabled source has been processed.
    Finished,
}

/// Progress of one pass over the enabled sources, in order.
#[derive(Debug)]
pub struct IngestionPass {
    /// Enabled sources in this pass.
    pub sources: usize,
    /// Position of the next source to process.
    pub next: usize,
    /// Sources processed successfully so far.
    pub succeeded: usize,
    /// Sources whose processing failed so far.
    pub failed: usize,
}

/// A pass's progress: the next position, and the successes and failures so far.
pub open spec fn progress(p: IngestionPass) -> (nat, nat, nat) {
    (p.next as nat, p.succeeded as nat, p.failed as nat)
}

/// Recording one result: the position always moves on by one, and the
/// result is counted by its kind.
pub open spec fn pass_step(p: (nat, nat, nat), result: SourceResult) -> (nat, nat, nat) {
    if result == SourceResult::Succeeded {
        (p.0 + 1, p.1 + 1, p.2)
    } else {
        (p.0 + 1, p.1, p.2 + 1)
    }
}

/// The progress after recording `results` in order, from the start of a pass.
pub open spec fn pass_after(results: Seq<SourceResult>) -> (nat, nat, nat)
    decreases results.len(),
{
    if results.len() == 0 {
        (0, 0, 0)
    } else {
        pass_step(pass_after(results.drop_last()), results.last())
    }
}

impl IngestionPass {
    /// Every source before `next` has ended, one way or the other.
    pub open spec fn well_formed(&self) -> bool {
        &&& self.next <= self.sources
        &&& self.succeeded + self.failed == self.next
    }

    /// A pass over `sources` enabled sources, none processed yet.
    pub fn new(sources: usize) -> (p: IngestionPass)
        ensures
            p.well_formed(),
            p.sources == sources,
            progress(p) == pass_after(Seq::empty()),
    {
        IngestionPass { sources, next: 0, succeeded: 0, failed: 0 }
    }

    /// The next source to process, in order, until none is left.
    pub fn next_action(&self) -> (a: PassAction)
        requires
            self.well_formed(),
        ensures
            self.next < self.sources ==> a == PassAction::Process(self.next),
            self.next >= self.sources ==> a == PassAction::Finished,
    {
        if self.next < self.sources {
            PassAction::Process(self.next)
        } else {
            PassAction::Finished
        }
    }

    /// Records how the current source ended and moves on to the next one,
    /// whatever the result: a failed source never stops the pass.
    pub fn record(&mut self, result: SourceResult)
        requires
            old(self).well_formed(),
            old(self).next < old(self).sources,
        ensures
            final(self).well_formed(),
            final(self).sources == old(self).sources,
            progress(*final(self)) == pass_step(progress(*old(self)), result),
    {
        match result {
            SourceResult::Succeeded => self.succeeded = self.succeeded + 1,
            SourceResult::Failed => self.failed = self.failed + 1,
        }
        self.next = self.next + 1;
    }
}

/// A source failure does not end a pass: after results for the first `k`
/// sources, whatever they were, the next source processed is source `k`,
/// and every result is counted once.
pub proof fn lemma_failures_do_not_stop_the_pass(results: Seq<SourceResult>)
    ensures
        pass_after(results).0 == results.len(),
        pass_after(results).1 + pass_after(results).2 == results.len(),
    decreases results.len(),
{
    if results.len() > 0 {
        lemma_failures_do_not_stop_the_pass(results.drop_last());
    }
}

} // verus!
