//! Queries and pages of the sortable policy change feed.
use vstd::prelude::*;

use crate::date::CalendarDate;
use crate::json::{nonblank, nonblank_str, opt_view};
use crate::text::{ascii_lower, ascii_lower_str, chars_of, has_infix, string_from};

verus! {

/// The page size used when a request names none.
pub const DEFAULT_LIMIT: u32 = 20;

/// The largest page a request may ask for.
pub const MAX_LIMIT: u32 = 100;

/// Supported sort orders for the change feed.
#[derive(Clone, Copy, Debug, PartialEq, Eq, Structural)]
pub enum ChangeFeedSort {
    /// Most recently published entries first, scheduled entries after the
    /// others, unknown publication dates last.
    PublishedDesc,
    /// Oldest published entries first, unknown publication dates last.
    PublishedAsc,
    /// Most recently observed crawler changes first.
    ObservedDesc,
    /// Oldest observed crawler changes first.
    ObservedAsc,
}

impl Default for ChangeFeedSort {
    fn default() -> (s: ChangeFeedSort)
        ensures
            s == ChangeFeedSort::PublishedDesc,
    {
        ChangeFeedSort::PublishedDesc
    }
}

/// The wire name of each sort order, as requests and answers spell it.
pub open spec fn sort_wire_name(sort: ChangeFeedSort) -> Seq<char> {
    match sort {
        ChangeFeedSort::PublishedDesc => "published_desc"@,
        ChangeFeedSort::PublishedAsc => "published_asc"@,
        ChangeFeedSort::ObservedDesc => "observed_desc"@,
        ChangeFeedSort::ObservedAsc => "observed_asc"@,
    }
}

/// The sort order with a given wire name, if any.
pub open spec fn sort_from_wire_name(name: Seq<char>) -> Option<ChangeFeedSort> {
    if name == "published_desc"@ {
        Some(ChangeFeedSort::PublishedDesc)
    } else if name == "published_asc"@ {
        Some(ChangeFeedSort::PublishedAsc)
    } else if name == "observed_desc"@ {
        Some(ChangeFeedSort::ObservedDesc)
    } else if name == "observed_asc"@ {
        Some(ChangeFeedSort::ObservedAsc)
    } else {
        None
    }
}

impl ChangeFeedSort {
    /// The sort's wire name.
    pub fn wire_name(self) -> (name: &'static str)
        ensures
            name@ == sort_wire_name(self),
    {
        match self {
            ChangeFeedSort::PublishedDesc => "published_desc",
            ChangeFeedSort::PublishedAsc => "published_asc",
            ChangeFeedSort::ObservedDesc => "observed_desc",
            ChangeFeedSort::ObservedAsc => "observed_asc",
        }
    }

    /// Reads a sort from its wire name; any other text names no sort.
    pub fn from_wire_name(name: &str) -> (r: Option<ChangeFeedSort>)
        ensures
            r == sort_from_wire_name(name@),
    {
        if crate::text::str_eq(name, "published_desc") {
            Some(ChangeFeedSort::PublishedDesc)
        } else if crate::text::str_eq(name, "published_asc") {
            Some(ChangeFeedSort::PublishedAsc)
        } else if crate::text::str_eq(name, "observed_desc") {
            Some(ChangeFeedSort::ObservedDesc)
        } else if crate::text::str_eq(name, "observed_asc") {
            Some(ChangeFeedSort::ObservedAsc)
        } else {
            None
        }
    }
}

/// Every sort reads back from its wire name, and a wire name reads only as
/// the sort it names.
pub proof fn lemma_sort_wire_round_trip(sort: ChangeFeedSort, name: Seq<char>)
    ensures
        sort_from_wire_name(sort_wire_name(sort)) == Some(sort),
        sort_from_wire_name(name) == Some(sort) ==> name == sort_wire_name(sort),
{
    reveal_strlit("published_desc");
    reveal_strlit("published_asc");
    reveal_strlit("observed_desc");
    reveal_strlit("observed_asc");
    assert("published_desc"@.len() != "published_asc"@.len());
    assert("published_desc"@.len() != "observed_desc"@.len());
    assert("published_desc"@.len() != "observed_asc"@.len());
    assert("published_asc"@[0] != "observed_desc"@[0]);
    assert("published_asc"@.len() != "observed_asc"@.len());
    assert("observed_desc"@.len() != "observed_asc"@.len());
}

/// Query parameters accepted by the change-feed endpoint.
#[derive(Debug)]
pub struct ChangeFeedQuery {
    /// Maximum number of items to return, capped at 100.
    pub limit: Option<u32>,
    /// Number of items to skip.
    pub offset: Option<u32>,
    /// Jurisdiction code to include, such as `us` or `ca`.
    pub region: Option<String>,
    /// Publishing agency to include.
    pub agency: Option<String>,
    /// Current policy status to include.
    pub status: Option<String>,
    /// Source category to include, such as `policy` or `news`.
    pub category: Option<String>,
    /// Free-text term matched against entry titles and change summaries.
    pub q: Option<String>,
    /// Ordering of items in the response; newest publication first when absent.
    pub sort: Option<ChangeFeedSort>,
}

impl Default for ChangeFeedQuery {
    fn default() -> (q: ChangeFeedQuery)
        ensures
            q.limit is None,
            q.offset is None,
            q.region is None,
            q.agency is None,
            q.status is None,
            q.category is None,
            q.q is None,
            q.sort is None,
    {
        ChangeFeedQuery { limit: None, offset: None, region: None, agency: None, status: None, category: None, q: None, sort: None }
    }
}

/// The page size a request gets: its own limit (20 when absent) brought into 1..=100.
pub open spec fn page_limit(limit: Option<u32>) -> u32 {
    let l = match limit {
        Some(l) => l,
        None => DEFAULT_LIMIT,
    };
    if l < 1 {
        1
    } else if l > MAX_LIMIT {
        MAX_LIMIT
    } else {
        l
    }
}

/// The order a request asks for, newest publication first when it names none.
pub open spec fn requested_sort(sort: Option<ChangeFeedSort>) -> ChangeFeedSort {
    match sort {
        Some(s) => s,
        None => ChangeFeedSort::PublishedDesc,
    }
}

/// A filter value as the feed uses it: trimmed, and absent when blank.
pub open spec fn filter_value(v: Option<String>) -> Option<Seq<char>> {
    nonblank(opt_view(v))
}

pub open spec fn lower_opt(v: Option<Seq<char>>) -> Option<Seq<char>> {
    match v {
        Some(s) => Some(ascii_lower(s)),
        None => None,
    }
}

/// The SQL ordering of each sort. Every fragment is one of these four
/// constants, never text taken from a request.
pub open spec fn order_clause(sort: ChangeFeedSort) -> Seq<char> {
    match sort {
        ChangeFeedSort::PublishedDesc => "CASE WHEN publication_date > CURRENT_DATE THEN 1 ELSE 0 END ASC, publication_date DESC NULLS LAST, observed_at DESC, latest_version_id DESC, entry_id DESC"@,
        ChangeFeedSort::PublishedAsc => "publication_date ASC NULLS LAST, observed_at DESC, latest_version_id DESC, entry_id DESC"@,
        ChangeFeedSort::ObservedDesc => "observed_at DESC, latest_version_id DESC, entry_id DESC"@,
        ChangeFeedSort::ObservedAsc => "observed_at ASC, latest_version_id DESC, entry_id DESC"@,
    }
}

/// Trims a filter value; blank and absent values are both absent.
pub fn normalized_filter(value: Option<&str>) -> (r: Option<String>)
    ensures
        opt_view(r) == nonblank(match value {
            Some(s) => Some(s@),
            None => None,
        }),
{
    match value {
        Some(s) => nonblank_str(s),
        None => None,
    }
}

fn filter_of(value: &Option<String>) -> (r: Option<String>)
    ensures
        opt_view(r) == filter_value(*value),
{
    match value {
        Some(s) => normalized_filter(Some(s.as_str())),
        None => None,
    }
}

fn lower_of(value: Option<String>) -> (r: Option<String>)
    ensures
        opt_view(r) == lower_opt(opt_view(value)),
{
    match value {
        Some(s) => Some(ascii_lower_str(s.as_str())),
        None => None,
    }
}

impl ChangeFeedQuery {
    /// Returns validated, bounded pagination values: the page limit and the offset.
    pub fn pagination(&self) -> (r: (u32, u32))
        ensures
            r.0 == page_limit(self.limit),
            r.1 == match self.offset {
                Some(o) => o,
                None => 0,
            },
    {
        let requested = match self.limit {
            Some(l) => l,
            None => DEFAULT_LIMIT,
        };
        let limit = if requested < 1 {
            1
        } else if requested > MAX_LIMIT {
            MAX_LIMIT
        } else {
            requested
        };
        let offset = match self.offset {
            Some(o) => o,
            None => 0,
        };
        (limit, offset)
    }

    /// Returns the refinements: region, agency, status and category, each
    /// trimmed and absent when blank; region and category in ASCII lower case.
    pub fn filters(&self) -> (r: (Option<String>, Option<String>, Option<String>, Option<String>))
        ensures
            opt_view(r.0) == lower_opt(filter_value(self.region)),
            opt_view(r.1) == filter_value(self.agency),
            opt_view(r.2) == filter_value(self.status),
            opt_view(r.3) == lower_opt(filter_value(self.category)),
    {
        (lower_of(filter_of(&self.region)), filter_of(&self.agency), filter_of(&self.status), lower_of(filter_of(&self.category)))
    }

    /// Returns the trimmed free-text search term. Blank and absent values
    /// behave the same, so an empty search field leaves the feed unchanged.
    pub fn search_term(&self) -> (r: Option<String>)
        ensures
            opt_view(r) == filter_value(self.q),
    {
        filter_of(&self.q)
    }

    /// Returns the requested feed order, newest publication first by default.
    pub fn sort(&self) -> (s: ChangeFeedSort)
        ensures
            s == requested_sort(self.sort),
    {
        match self.sort {
            Some(s) => s,
            None => ChangeFeedSort::default(),
        }
    }

    /// Everything the feed query binds, taken from this request.
    pub fn plan(&self) -> (p: FeedQueryPlan)
        ensures
            p.sql@ == feed_sql(requested_sort(self.sort)),
            p.fetch_limit == page_limit(self.limit) + 1,
            p.offset == match self.offset {
                Some(o) => o,
                None => 0,
            },
            opt_view(p.region) == lower_opt(filter_value(self.region)),
            opt_view(p.agency) == filter_value(self.agency),
            opt_view(p.status) == filter_value(self.status),
            opt_view(p.category) == lower_opt(filter_value(self.category)),
            opt_view(p.search_term) == filter_value(self.q),
    {
        let (limit, offset) = self.pagination();
        let (region, agency, status, category) = self.filters();
        FeedQueryPlan {
            sql: change_feed_sql(self.sort()),
            fetch_limit: limit as i64 + 1,
            offset: offset as i64,
            region,
            agency,
            status,
            category,
            search_term: self.search_term(),
        }
    }
}

/// Returns the fixed SQL ordering fragment for a sort.
pub fn order_by(sort: ChangeFeedSort) -> (clause: &'static str)
    ensures
        clause@ == order_clause(sort),
{
    match sort {
        ChangeFeedSort::PublishedDesc => "CASE WHEN publication_date > CURRENT_DATE THEN 1 ELSE 0 END ASC, publication_date DESC NULLS LAST, observed_at DESC, latest_version_id DESC, entry_id DESC",
        ChangeFeedSort::PublishedAsc => "publication_date ASC NULLS LAST, observed_at DESC, latest_version_id DESC, entry_id DESC",
        ChangeFeedSort::ObservedDesc => "observed_at DESC, latest_version_id DESC, entry_id DESC",
        ChangeFeedSort::ObservedAsc => "observed_at ASC, latest_version_id DESC, entry_id DESC",
    }
}

/// The feed query up to its ordering: the latest version of each entry,
/// entries that share a category, normalized title, agency and publication
/// date reported once, filtered by the bound values `$3`..`$7`.
pub open spec fn feed_sql_head() -> Seq<char> {
    feed_sql_candidates() + feed_sql_search() + feed_sql_selection()
}

/// The candidate rows and their filters on `$3`..`$6`, up to the search condition.
pub open spec fn feed_sql_candidates() -> Seq<char> {
    "WITH candidate_rows AS ( SELECT entries.id AS entry_id, entries.title, entries.region, sources.category AS source_category, entries.agency, entries.publication_date, entries.status, entries.source_url, latest.change_summary, latest.observed_at, latest.id AS latest_version_id, CASE WHEN entries.publication_date IS NOT NULL AND BTRIM(entries.title) <> '' AND BTRIM(entries.agency) <> '' THEN CONCAT(sources.category, ':fallback:', LOWER(REGEXP_REPLACE(BTRIM(entries.title), '[[:space:]]+', ' ', 'g')), '|', LOWER(REGEXP_REPLACE(BTRIM(entries.agency), '[[:space:]]+', ' ', 'g')), '|', entries.publication_date::TEXT) ELSE CONCAT('entry:', entries.id::TEXT) END AS policy_identity FROM policy_entries AS entries JOIN sources ON sources.id = entries.source_id JOIN LATERAL ( SELECT id, change_summary, observed_at FROM policy_versions WHERE policy_entry_id = entries.id ORDER BY observed_at DESC, id DESC LIMIT 1 ) AS latest ON TRUE WHERE ($3::TEXT IS NULL OR entries.region = $3) AND ($4::TEXT IS NULL OR entries.agency = $4) AND ($5::TEXT IS NULL OR entries.status = $5) AND ($6::TEXT IS NULL OR sources.category = $6) AND ( "@
}

/// The search condition on `$7`: no term, or the term within the title or
/// within the latest change summary, in any letter case.
pub open spec fn feed_sql_search() -> Seq<char> {
    "$7::TEXT IS NULL OR entries.title ILIKE CONCAT('%', $7, '%') OR COALESCE(latest.change_summary, '') ILIKE CONCAT('%', $7, '%')"@
}

/// After the search condition: one row per policy identity, and the columns
/// of the page, up to its ordering.
pub open spec fn feed_sql_selection() -> Seq<char> {
    " ) ), deduplicated_rows AS ( SELECT DISTINCT ON (policy_identity) entry_id, title, region, source_category, agency, publication_date, status, source_url, change_summary, observed_at, latest_version_id FROM candidate_rows ORDER BY policy_identity, observed_at DESC, latest_version_id DESC, entry_id DESC ) SELECT entry_id, title, region, source_category, agency, publication_date, COALESCE(publication_date > CURRENT_DATE, FALSE) AS scheduled, status, source_url, change_summary, observed_at FROM deduplicated_rows ORDER BY "@
}

/// The feed query's page bounds: `$1` rows after skipping `$2`.
pub open spec fn feed_sql_tail() -> Seq<char> {
    " LIMIT $1 OFFSET $2"@
}

/// The whole feed query for a sort.
pub open spec fn feed_sql(sort: ChangeFeedSort) -> Seq<char> {
    feed_sql_head() + order_clause(sort) + feed_sql_tail()
}

/// The feed query text for a sort; only the ordering varies, and only among
/// the four fixed fragments.
pub fn change_feed_sql(sort: ChangeFeedSort) -> (sql: String)
    ensures
        sql@ == feed_sql(sort),
{
    let mut v = chars_of("WITH candidate_rows AS ( SELECT entries.id AS entry_id, entries.title, entries.region, sources.category AS source_category, entries.agency, entries.publication_date, entries.status, entries.source_url, latest.change_summary, latest.observed_at, latest.id AS latest_version_id, CASE WHEN entries.publication_date IS NOT NULL AND BTRIM(entries.title) <> '' AND BTRIM(entries.agency) <> '' THEN CONCAT(sources.category, ':fallback:', LOWER(REGEXP_REPLACE(BTRIM(entries.title), '[[:space:]]+', ' ', 'g')), '|', LOWER(REGEXP_REPLACE(BTRIM(entries.agency), '[[:space:]]+', ' ', 'g')), '|', entries.publication_date::TEXT) ELSE CONCAT('entry:', entries.id::TEXT) END AS policy_identity FROM policy_entries AS entries JOIN sources ON sources.id = entries.source_id JOIN LATERAL ( SELECT id, change_summary, observed_at FROM policy_versions WHERE policy_entry_id = entries.id ORDER BY observed_at DESC, id DESC LIMIT 1 ) AS latest ON TRUE WHERE ($3::TEXT IS NULL OR entries.region = $3) AND ($4::TEXT IS NULL OR entries.agency = $4) AND ($5::TEXT IS NULL OR entries.status = $5) AND ($6::TEXT IS NULL OR sources.category = $6) AND ( ");
    crate::text::append_str(&mut v, "$7::TEXT IS NULL OR entries.title ILIKE CONCAT('%', $7, '%') OR COALESCE(latest.change_summary, '') ILIKE CONCAT('%', $7, '%')");
    crate::text::append_str(&mut v, " ) ), deduplicated_rows AS ( SELECT DISTINCT ON (policy_identity) entry_id, title, region, source_category, agency, publication_date, status, source_url, change_summary, observed_at, latest_version_id FROM candidate_rows ORDER BY policy_identity, observed_at DESC, latest_version_id DESC, entry_id DESC ) SELECT entry_id, title, region, source_category, agency, publication_date, COALESCE(publication_date > CURRENT_DATE, FALSE) AS scheduled, status, source_url, change_summary, observed_at FROM deduplicated_rows ORDER BY ");
    crate::text::append_str(&mut v, order_by(sort));
    crate::text::append_str(&mut v, " LIMIT $1 OFFSET $2");
    string_from(v.as_slice())
}

/// The values the feed query binds, in parameter order.
#[derive(Debug)]
pub struct FeedQueryPlan {
    /// The query text.
    pub sql: String,
    /// `$1`: one row more than the page limit, to learn whether a next page exists.
    pub fetch_limit: i64,
    /// `$2`: rows to skip.
    pub offset: i64,
    /// `$3`..`$6`: the refinements.
    pub region: Option<String>,
    pub agency: Option<String>,
    pub status: Option<String>,
    pub category: Option<String>,
    /// `$7`: the search term.
    pub search_term: Option<String>,
}

/// An instant as seconds and nanoseconds since the Unix epoch (UTC).
#[derive(Clone, Copy, Debug, PartialEq, Eq, Structural)]
pub struct Timestamp {
    pub unix_seconds: i64,
    pub nanos: u32,
}

/// One policy entry in the change feed, represented by its latest version.
#[derive(Debug)]
pub struct ChangeFeedItem {
    /// Identifier used to request the expandable entry detail.
    pub entry_id: i64,
    pub title: String,
    pub region: String,
    /// Category of the source that published this entry.
    pub source_category: String,
    pub agency: String,
    pub publication_date: Option<CalendarDate>,
    /// True when the publication date is after the current date.
    pub scheduled: bool,
    pub status: String,
    pub source_url: String,
    pub change_summary: Option<String>,
    pub changed_at: Timestamp,
}

/// A feed row as the query returns it.
#[derive(Debug)]
pub struct FeedRow {
    pub entry_id: i64,
    pub title: String,
    pub region: String,
    pub source_category: String,
    pub agency: String,
    pub publication_date: Option<CalendarDate>,
    pub scheduled: bool,
    pub status: String,
    pub source_url: String,
    pub change_summary: Option<String>,
    pub observed_at: Timestamp,
}

impl FeedRow {
    /// The row as a feed item: field for field, its observation time as the change time.
    pub fn into_item(self) -> (item: ChangeFeedItem)
        ensures
            item == (ChangeFeedItem {
                entry_id: self.entry_id,
                title: self.title,
                region: self.region,
                source_category: self.source_category,
                agency: self.agency,
                publication_date: self.publication_date,
                scheduled: self.scheduled,
                status: self.status,
                source_url: self.source_url,
                change_summary: self.change_summary,
                changed_at: self.observed_at,
            }),
    {
        ChangeFeedItem {
            entry_id: self.entry_id,
            title: self.title,
            region: self.region,
            source_category: self.source_category,
            agency: self.agency,
            publication_date: self.publication_date,
            scheduled: self.scheduled,
            status: self.status,
            source_url: self.source_url,
            change_summary: self.change_summary,
            changed_at: self.observed_at,
        }
    }
}

/// Failure while loading the change feed: the database query's message.
#[derive(Debug)]
pub enum FeedError {
    Database(String),
}

impl FeedError {
    /// The HTTP status answered: always 500.
    pub fn status_code(&self) -> (code: u16)
        ensures
            code == 500,
    {
        500
    }
}

/// A page of the latest observed changes across policy entries.
#[derive(Debug)]
pub struct ChangeFeedResponse {
    pub items: Vec<ChangeFeedItem>,
    pub limit: u32,
    pub offset: u32,
    pub next_offset: Option<u32>,
}

/// `a + b`, or `u32::MAX` when that overflows.
pub open spec fn saturating_add_u32(a: u32, b: u32) -> u32 {
    if a + b > u32::MAX {
        u32::MAX
    } else {
        (a + b) as u32
    }
}

impl ChangeFeedResponse {
    /// The page made of rows fetched with one more than `limit` rows: at most
    /// `limit` items, in fetched order, and a next offset exactly when more
    /// rows were fetched than fit the page.
    pub fn from_rows(rows: Vec<ChangeFeedItem>, limit: u32, offset: u32) -> (page: ChangeFeedResponse)
        ensures
            page.items@ == (if rows@.len() > limit { rows@.take(limit as int) } else { rows@ }),
            page.limit == limit,
            page.offset == offset,
            page.next_offset == (if rows@.len() > limit { Some(saturating_add_u32(offset, limit)) } else { None }),
    {
        let has_next_page = rows.len() > limit as usize;
        let mut items = rows;
        if has_next_page {
            items.truncate(limit as usize);
        }
        let next_offset = if has_next_page {
            Some(offset.saturating_add(limit))
        } else {
            None
        };
        ChangeFeedResponse { items, limit, offset, next_offset }
    }
}

/// Any request gets a page limit between 1 and 100, and 20 when it names none.
pub proof fn lemma_page_limit_bounded(limit: Option<u32>)
    ensures
        1 <= page_limit(limit) <= MAX_LIMIT,
        limit is None ==> page_limit(limit) == DEFAULT_LIMIT,
{
}

/// A page never holds more items than its limit.
pub proof fn lemma_page_within_limit(rows: Seq<ChangeFeedItem>, limit: u32)
    ensures
        (if rows.len() > limit { rows.take(limit as int) } else { rows }).len() <= limit,
{
}

/// A blank search term filters nothing, exactly as an absent one.
pub proof fn lemma_blank_search_is_absent(q: Option<String>)
    requires
        match q {
            Some(s) => crate::text::trim(s@).len() == 0,
            None => true,
        },
    ensures
        filter_value(q) is None,
{
}

/// The feed query's text depends on the requested order alone, never on the
/// text of a request: two requests asking for the same order run the same
/// query, whatever their filters and search terms, and its ordering is one of
/// the four fixed fragments.
pub proof fn lemma_query_text_is_fixed(a: ChangeFeedQuery, b: ChangeFeedQuery)
    requires
        requested_sort(a.sort) == requested_sort(b.sort),
    ensures
        feed_sql(requested_sort(a.sort)) == feed_sql(requested_sort(b.sort)),
        exists|s: ChangeFeedSort| feed_sql(requested_sort(a.sort)) == feed_sql_head() + #[trigger] order_clause(s) + feed_sql_tail(),
{
    assert(order_clause(requested_sort(a.sort)) == order_clause(requested_sort(a.sort)));
}

/// Whatever the order, the feed query holds the search condition that
/// accepts a row when no term is bound, when its title holds the term, or
/// when its latest change summary holds it, in any letter case: a row whose
/// summary mentions the term is kept though its title does not.
pub proof fn lemma_search_matches_title_or_summary(sort: ChangeFeedSort)
    ensures
        has_infix(
            feed_sql(sort),
            "$7::TEXT IS NULL OR entries.title ILIKE CONCAT('%', $7, '%') OR COALESCE(latest.change_summary, '') ILIKE CONCAT('%', $7, '%')"@,
        ),
{
    let needle = feed_sql_search();
    let i = feed_sql_candidates().len() as int;
    let whole = feed_sql(sort);
    assert(whole =~= feed_sql_candidates() + (needle + (feed_sql_selection() + order_clause(sort) + feed_sql_tail())));
    assert(whole.subrange(i, i + needle.len()) =~= needle);
}

} // verus!
