//! Change detection between a normalized record and its latest stored version.
use vstd::prelude::*;

use crate::digest::{content_hash, hex_lower, sha256_digest};
use crate::json::{opt_view, JsonValue};
use crate::json_codec::{json_bytes, json_display, json_text, serialized_json};
use crate::normalization::NormalizedPolicyRecord;
use crate::text::{
    append_chars, append_str, chars_of, join_lines, lemma_split_lines_no_feed, lemma_trim_chars_from, split_lines,
    split_lines_chars, str_eq, string_from, trim, trim_chars,
};

verus! {

/// Classification assigned when an observed policy state is recorded.
#[derive(Clone, Copy, Debug, PartialEq, Eq, Structural)]
pub enum PolicyChangeKind {
    /// The first observed state for a policy entry.
    New,
    /// A later observed state with changed normalized content.
    Updated,
}

pub open spec fn change_kind_code(k: PolicyChangeKind) -> Seq<char> {
    match k {
        PolicyChangeKind::New => "new"@,
        PolicyChangeKind::Updated => "updated"@,
    }
}

impl PolicyChangeKind {
    /// The stored code of the kind.
    pub fn as_code(self) -> (code: &'static str)
        ensures
            code@ == change_kind_code(self),
    {
        match self {
            PolicyChangeKind::New => "new",
            PolicyChangeKind::Updated => "updated",
        }
    }
}

/// The API value of a stored change kind: `new` is new, any other code an update.
pub open spec fn change_kind_of(value: Seq<char>) -> PolicyChangeKind {
    if value == "new"@ {
        PolicyChangeKind::New
    } else {
        PolicyChangeKind::Updated
    }
}

/// Maps a stored change kind to its API value; an unknown code counts as an update.
pub fn change_kind(value: &str) -> (k: PolicyChangeKind)
    ensures
        k == change_kind_of(value@),
{
    if str_eq(value, "new") {
        PolicyChangeKind::New
    } else {
        PolicyChangeKind::Updated
    }
}

/// How a normalized record relates to the entry's stored history.
#[derive(Clone, Copy, Debug, PartialEq, Eq, Structural)]
pub enum ChangeKind {
    New,
    Updated,
    Unchanged,
}

/// The newest stored version of an entry.
#[derive(Debug)]
pub struct LatestVersion {
    pub content_hash: String,
    pub version_number: i32,
}

/// What to store for a record: nothing, or a version with its number and kind.
#[derive(Clone, Copy, Debug, PartialEq, Eq, Structural)]
pub struct ChangeDecision {
    pub kind: ChangeKind,
    pub version: Option<NewVersion>,
}

/// The number and kind of a version to store.
#[derive(Clone, Copy, Debug, PartialEq, Eq, Structural)]
pub struct NewVersion {
    pub number: i32,
    pub kind: PolicyChangeKind,
}

/// A record with unchanged content stores nothing; changed content stores
/// the next version as an update; an entry without history gets version 1.
pub open spec fn change_decision(latest: Option<(Seq<char>, i32)>, content_hash: Seq<char>) -> ChangeDecision {
    match latest {
        Some((hash, number)) => if hash == content_hash {
            ChangeDecision { kind: ChangeKind::Unchanged, version: None }
        } else {
            ChangeDecision { kind: ChangeKind::Updated, version: Some(NewVersion { number: (number + 1) as i32, kind: PolicyChangeKind::Updated }) }
        },
        None => ChangeDecision { kind: ChangeKind::New, version: Some(NewVersion { number: 1, kind: PolicyChangeKind::New }) },
    }
}

pub open spec fn latest_view(latest: Option<LatestVersion>) -> Option<(Seq<char>, i32)> {
    match latest {
        Some(v) => Some((v.content_hash@, v.version_number)),
        None => None,
    }
}

/// Decides what to store for a record whose canonical content hashes to
/// `content_hash`, given the entry's newest stored version.
pub fn decide_change(latest: &Option<LatestVersion>, content_hash: &str) -> (d: ChangeDecision)
    requires
        latest matches Some(v) ==> (v.content_hash@ != content_hash@ ==> v.version_number < i32::MAX),
    ensures
        d == change_decision(latest_view(*latest), content_hash@),
{
    match latest {
        Some(v) => {
            if str_eq(v.content_hash.as_str(), content_hash) {
                ChangeDecision { kind: ChangeKind::Unchanged, version: None }
            } else {
                ChangeDecision { kind: ChangeKind::Updated, version: Some(NewVersion { number: v.version_number + 1, kind: PolicyChangeKind::Updated }) }
            }
        },
        None => ChangeDecision { kind: ChangeKind::New, version: Some(NewVersion { number: 1, kind: PolicyChangeKind::New }) },
    }
}

/// A version is written exactly when the content changed or the entry is
/// new; versions number from 1 and each update follows its predecessor.
pub proof fn lemma_version_history(latest: Option<(Seq<char>, i32)>, content_hash: Seq<char>)
    requires
        latest matches Some((_, n)) ==> n < i32::MAX,
    ensures
        change_decision(latest, content_hash).version is None <==> (latest matches Some((h, _)) && h == content_hash),
        latest is None ==> change_decision(latest, content_hash).version == Some(NewVersion { number: 1, kind: PolicyChangeKind::New }),
        latest matches Some((h, n)) ==> (h != content_hash ==> change_decision(latest, content_hash).version == Some(
            NewVersion { number: (n + 1) as i32, kind: PolicyChangeKind::Updated },
        )),
{
}

/// The newest stored version after a record with `content_hash` is
/// processed: the version stored for it, or the unchanged newest one.
pub open spec fn after_change(latest: Option<(Seq<char>, i32)>, content_hash: Seq<char>) -> Option<(Seq<char>, i32)> {
    match change_decision(latest, content_hash).version {
        Some(v) => Some((content_hash, v.number)),
        None => latest,
    }
}

/// The newest stored version of an entry after records with these content
/// hashes were processed in order, starting without history.
pub open spec fn history_after(hashes: Seq<Seq<char>>) -> Option<(Seq<char>, i32)>
    decreases hashes.len(),
{
    if hashes.len() == 0 {
        None
    } else {
        after_change(history_after(hashes.drop_last()), hashes.last())
    }
}

/// How many of the hashes differ from the one before them (the first always counts).
pub open spec fn content_changes(hashes: Seq<Seq<char>>) -> nat
    decreases hashes.len(),
{
    if hashes.len() == 0 {
        0
    } else {
        content_changes(hashes.drop_last()) + if hashes.len() == 1 || hashes[hashes.len() - 2] != hashes.last() {
            1nat
        } else {
            0nat
        }
    }
}

/// Version history: after any sequence of observations of an entry, the
/// newest version holds the latest content and is numbered by how many
/// times the content changed (1 for the first observation); observing the
/// same content again stores no version and counts as unchanged.
pub proof fn lemma_history_numbering(hashes: Seq<Seq<char>>)
    requires
        hashes.len() < i32::MAX,
    ensures
        hashes.len() == 0 ==> history_after(hashes) is None,
        hashes.len() > 0 ==> history_after(hashes) == Some((hashes.last(), content_changes(hashes) as i32)),
        hashes.len() > 0 ==> 1 <= content_changes(hashes) <= hashes.len(),
        hashes.len() > 0 ==> change_decision(history_after(hashes), hashes.last()) == (ChangeDecision {
            kind: ChangeKind::Unchanged,
            version: None,
        }),
    decreases hashes.len(),
{
    if hashes.len() == 1 {
        assert(hashes.drop_last().len() == 0);
        assert(history_after(hashes.drop_last()) is None);
        assert(content_changes(hashes.drop_last()) == 0);
    } else if hashes.len() > 1 {
        let prev = hashes.drop_last();
        lemma_history_numbering(prev);
        assert(prev.last() == hashes[hashes.len() - 2]);
        let c = content_changes(prev);
        assert(history_after(prev) == Some((prev.last(), c as i32)));
        assert(c < i32::MAX);
        if prev.last() != hashes.last() {
            assert(change_decision(history_after(prev), hashes.last()).version == Some(
                NewVersion { number: (c + 1) as i32, kind: PolicyChangeKind::Updated },
            ));
        }
    }
}

/// Counts produced by a change-detection pass.
#[derive(Debug)]
pub struct ChangeDetectionOutcome {
    /// Records that created a policy entry and its initial version.
    pub new_entries: usize,
    /// Existing entries whose canonical content changed.
    pub updated_entries: usize,
    /// Existing entries whose canonical content was unchanged.
    pub unchanged_entries: usize,
}

impl Default for ChangeDetectionOutcome {
    fn default() -> (o: ChangeDetectionOutcome)
        ensures
            o.new_entries == 0 && o.updated_entries == 0 && o.unchanged_entries == 0,
    {
        ChangeDetectionOutcome { new_entries: 0, updated_entries: 0, unchanged_entries: 0 }
    }
}

impl ChangeDetectionOutcome {
    pub open spec fn total(&self) -> int {
        self.new_entries + self.updated_entries + self.unchanged_entries
    }

    /// Counts one more record of the given kind.
    pub fn count(&mut self, kind: ChangeKind)
        requires
            old(self).total() < usize::MAX,
        ensures
            final(self).total() == old(self).total() + 1,
            final(self).new_entries == old(self).new_entries + if kind == ChangeKind::New { 1int } else { 0int },
            final(self).updated_entries == old(self).updated_entries + if kind == ChangeKind::Updated { 1int } else { 0int },
            final(self).unchanged_entries == old(self).unchanged_entries + if kind == ChangeKind::Unchanged { 1int } else { 0int },
    {
        match kind {
            ChangeKind::New => self.new_entries = self.new_entries + 1,
            ChangeKind::Updated => self.updated_entries = self.updated_entries + 1,
            ChangeKind::Unchanged => self.unchanged_entries = self.unchanged_entries + 1,
        }
    }
}

/// The kinds counted, by kind.
pub open spec fn count_kind(kinds: Seq<ChangeKind>, k: ChangeKind) -> nat
    decreases kinds.len(),
{
    if kinds.len() == 0 {
        0
    } else {
        count_kind(kinds.drop_last(), k) + if kinds.last() == k { 1nat } else { 0nat }
    }
}

/// The kinds a pass decides for records whose entries have these newest
/// versions and whose contents have these hashes, one record per entry.
pub open spec fn pass_kinds(latest: Seq<Option<(Seq<char>, i32)>>, hashes: Seq<Seq<char>>) -> Seq<ChangeKind> {
    Seq::new(hashes.len(), |i: int| change_decision(latest[i], hashes[i]).kind)
}

/// The newest versions after such a pass.
pub open spec fn pass_versions(latest: Seq<Option<(Seq<char>, i32)>>, hashes: Seq<Seq<char>>) -> Seq<Option<(Seq<char>, i32)>> {
    Seq::new(hashes.len(), |i: int| after_change(latest[i], hashes[i]))
}

proof fn lemma_all_unchanged_count(kinds: Seq<ChangeKind>)
    requires
        forall|i: int| 0 <= i < kinds.len() ==> kinds[i] == ChangeKind::Unchanged,
    ensures
        count_kind(kinds, ChangeKind::Unchanged) == kinds.len(),
        count_kind(kinds, ChangeKind::New) == 0,
        count_kind(kinds, ChangeKind::Updated) == 0,
    decreases kinds.len(),
{
    if kinds.len() > 0 {
        lemma_all_unchanged_count(kinds.drop_last());
    }
}

/// Running a pass again over the same records: every record is unchanged,
/// no version is stored, and the counts are all "unchanged".
pub proof fn lemma_second_pass_is_unchanged(latest: Seq<Option<(Seq<char>, i32)>>, hashes: Seq<Seq<char>>)
    requires
        latest.len() == hashes.len(),
        forall|i: int| 0 <= i < latest.len() ==> (#[trigger] latest[i] matches Some((_, n)) ==> n < i32::MAX),
    ensures
        forall|i: int| 0 <= i < hashes.len() ==> #[trigger] change_decision(pass_versions(latest, hashes)[i], hashes[i]) == (ChangeDecision {
            kind: ChangeKind::Unchanged,
            version: None,
        }),
        pass_versions(pass_versions(latest, hashes), hashes) == pass_versions(latest, hashes),
        count_kind(pass_kinds(pass_versions(latest, hashes), hashes), ChangeKind::Unchanged) == hashes.len(),
        count_kind(pass_kinds(pass_versions(latest, hashes), hashes), ChangeKind::New) == 0,
        count_kind(pass_kinds(pass_versions(latest, hashes), hashes), ChangeKind::Updated) == 0,
{
    let after = pass_versions(latest, hashes);
    assert forall|i: int| 0 <= i < hashes.len() implies #[trigger] change_decision(after[i], hashes[i]) == (ChangeDecision {
        kind: ChangeKind::Unchanged,
        version: None,
    }) by {
        assert(latest[i] matches Some((_, n)) ==> n < i32::MAX);
    }
    assert(pass_versions(after, hashes) =~= after);
    let kinds = pass_kinds(after, hashes);
    assert forall|i: int| 0 <= i < kinds.len() implies kinds[i] == ChangeKind::Unchanged by {
        assert(change_decision(after[i], hashes[i]).kind == ChangeKind::Unchanged);
    }
    lemma_all_unchanged_count(kinds);
}

/// The outcome of a pass over records of the given kinds: each kind counted,
/// and every record counted once.
pub fn tally(kinds: &[ChangeKind]) -> (o: ChangeDetectionOutcome)
    ensures
        o.new_entries == count_kind(kinds@, ChangeKind::New),
        o.updated_entries == count_kind(kinds@, ChangeKind::Updated),
        o.unchanged_entries == count_kind(kinds@, ChangeKind::Unchanged),
        o.total() == kinds@.len(),
{
    let mut o = ChangeDetectionOutcome::default();
    let mut i: usize = 0;
    while i < kinds.len()
        invariant
            i <= kinds@.len(),
            o.new_entries == count_kind(kinds@.take(i as int), ChangeKind::New),
            o.updated_entries == count_kind(kinds@.take(i as int), ChangeKind::Updated),
            o.unchanged_entries == count_kind(kinds@.take(i as int), ChangeKind::Unchanged),
            o.total() == i,
        decreases kinds.len() - i,
    {
        assert(kinds@.take(i + 1).drop_last() =~= kinds@.take(i as int));
        o.count(kinds[i]);
        i = i + 1;
    }
    assert(kinds@.take(i as int) =~= kinds@);
    o
}

/// The prompt text before the title.
pub open spec fn prompt_intro() -> Seq<char> {
    "Write a factual one-to-two-line plain-language summary of the substantive policy change. Do not use headings, bullets, or speculation.\n\nPolicy title: "@
}

/// What the prompt says of the previous content when there is none.
pub open spec fn no_prior_version() -> Seq<char> {
    "No prior version exists; explain the new policy entry."@
}

/// The summary prompt for a record: its title, the previous canonical
/// content (or a note that there is none) and the current canonical content.
pub open spec fn prompt_text(title: Seq<char>, previous: Option<Seq<char>>, current: Seq<char>) -> Seq<char> {
    prompt_intro() + title + "\nPrevious canonical content: "@ + match previous {
        Some(p) => p,
        None => no_prior_version(),
    } + "\n\nCurrent canonical content: "@ + current
}

/// The prompt from the record's title and the previous and current canonical
/// contents as text.
fn prompt_from_texts(title: &str, previous_content: Option<&str>, current_content: &str) -> (p: String)
    ensures
        p@ == prompt_text(title@, match previous_content {
            Some(s) => Some(s@),
            None => None,
        }, current_content@),
{
    let mut v = chars_of(
        "Write a factual one-to-two-line plain-language summary of the substantive policy change. Do not use headings, bullets, or speculation.\n\nPolicy title: ",
    );
    append_str(&mut v, title);
    append_str(&mut v, "\nPrevious canonical content: ");
    match previous_content {
        Some(p) => append_str(&mut v, p),
        None => append_str(&mut v, "No prior version exists; explain the new policy entry."),
    }
    append_str(&mut v, "\n\nCurrent canonical content: ");
    append_str(&mut v, current_content);
    string_from(v.as_slice())
}

/// Builds the summary prompt for a record: its title, the previous version's
/// canonical content as compact JSON (or a note that there is none), and the
/// record's canonical content as compact JSON.
pub fn summary_prompt(record: &NormalizedPolicyRecord, previous_content: Option<&JsonValue>) -> (p: String)
    ensures
        p@ == prompt_text(record.title@, match previous_content {
            Some(v) => Some(json_display(*v)),
            None => None,
        }, json_display(record.canonical_content)),
{
    let current = json_text(&record.canonical_content);
    match previous_content {
        Some(v) => {
            let previous = json_text(v);
            prompt_from_texts(record.title.as_str(), Some(previous.as_str()), current.as_str())
        },
        None => prompt_from_texts(record.title.as_str(), None, current.as_str()),
    }
}

/// The fingerprint of canonical content: the SHA-256 digest, in lower-case
/// hexadecimal, of its compact JSON serialization.
pub fn canonical_hash(content: &JsonValue) -> (h: String)
    ensures
        h@ == hex_lower(sha256_digest(serialized_json(*content))),
        h@.len() == 64,
{
    let bytes = json_bytes(content);
    content_hash(bytes.as_slice())
}

/// The non-blank lines of pieces, trimmed, in order.
pub open spec fn nonblank_lines(pieces: Seq<Seq<char>>) -> Seq<Seq<char>>
    decreases pieces.len(),
{
    if pieces.len() == 0 {
        Seq::empty()
    } else {
        let rest = nonblank_lines(pieces.drop_last());
        if trim(pieces.last()).len() > 0 {
            rest.push(trim(pieces.last()))
        } else {
            rest
        }
    }
}

pub open spec fn first_two(lines: Seq<Seq<char>>) -> Seq<Seq<char>> {
    if lines.len() <= 2 {
        lines
    } else {
        lines.take(2)
    }
}

/// The lines a summary keeps: its first two non-blank lines, trimmed.
pub open spec fn summary_lines(summary: Seq<char>) -> Seq<Seq<char>> {
    first_two(nonblank_lines(split_lines(summary)))
}

/// A summary condensed to its first two non-blank lines, or nothing when it has none.
pub open spec fn condensed(summary: Seq<char>) -> Option<Seq<char>> {
    if summary_lines(summary).len() == 0 {
        None
    } else {
        Some(join_lines(summary_lines(summary)))
    }
}

/// Keeps the first two non-blank lines of a generated summary, trimmed and
/// joined by a line feed; nothing when every line is blank.
pub fn condense_summary(summary: &str) -> (r: Option<String>)
    ensures
        opt_view(r) == condensed(summary@),
{
    let chars = chars_of(summary);
    let pieces = split_lines_chars(chars.as_slice());
    let ghost all = split_lines(summary@);
    let mut kept: Vec<Vec<char>> = Vec::new();
    let mut i: usize = 0;
    while i < pieces.len()
        invariant
            i <= pieces@.len(),
            pieces@.len() == all.len(),
            forall|k: int| 0 <= k < pieces@.len() ==> #[trigger] pieces@[k]@ == all[k],
            kept@.len() == first_two(nonblank_lines(all.take(i as int))).len(),
            forall|k: int| 0 <= k < kept@.len() ==> #[trigger] kept@[k]@ == first_two(nonblank_lines(all.take(i as int)))[k],
        decreases pieces.len() - i,
    {
        assert(all.take(i + 1).drop_last() =~= all.take(i as int));
        let t = trim_chars(pieces[i].as_slice());
        if t.len() > 0 && kept.len() < 2 {
            kept.push(t);
        }
        i = i + 1;
    }
    assert(all.take(i as int) =~= all);
    if kept.len() == 0 {
        return None;
    }
    let mut out: Vec<char> = Vec::new();
    append_chars(&mut out, kept[0].as_slice());
    if kept.len() > 1 {
        out.push('\n');
        append_chars(&mut out, kept[1].as_slice());
        let ghost lines = summary_lines(summary@);
        assert(lines.len() == 2);
        assert(lines.drop_last() =~= seq![lines[0]]);
        assert(join_lines(seq![lines[0]]) == lines[0]);
        assert(join_lines(lines) == join_lines(lines.drop_last()) + seq!['\n'] + lines.last());
        assert(kept@[0]@ == lines[0] && kept@[1]@ == lines[1]);
        assert(out@ =~= join_lines(lines));
    }
    Some(string_from(out.as_slice()))
}

/// Turns a summarizer reply into the version's change summary: nothing
/// without a reply, otherwise the condensed reply.
pub fn change_summary(reply: Option<String>) -> (r: Option<String>)
    ensures
        opt_view(r) == match opt_view(reply) {
            Some(s) => condensed(s),
            None => None,
        },
{
    match reply {
        Some(s) => condense_summary(s.as_str()),
        None => None,
    }
}

proof fn lemma_nonblank_lines_shape(pieces: Seq<Seq<char>>)
    requires
        forall|i: int, j: int| 0 <= i < pieces.len() && 0 <= j < pieces[i].len() ==> #[trigger] pieces[i][j] != '\n',
    ensures
        forall|i: int| 0 <= i < nonblank_lines(pieces).len() ==> (#[trigger] nonblank_lines(pieces)[i]).len() > 0,
        forall|i: int, j: int|
            0 <= i < nonblank_lines(pieces).len() && 0 <= j < nonblank_lines(pieces)[i].len() ==> #[trigger] nonblank_lines(
                pieces,
            )[i][j] != '\n',
    decreases pieces.len(),
{
    if pieces.len() > 0 {
        let front = pieces.drop_last();
        assert forall|i: int, j: int| 0 <= i < front.len() && 0 <= j < front[i].len() implies #[trigger] front[i][j] != '\n' by {
            assert(front[i] == pieces[i]);
        }
        lemma_nonblank_lines_shape(front);
        let last = pieces.last();
        lemma_trim_chars_from(last);
        assert forall|j: int| 0 <= j < trim(last).len() implies #[trigger] trim(last)[j] != '\n' by {
            let i = choose|i: int| 0 <= i < last.len() && last[i] == #[trigger] trim(last)[j];
            assert(pieces[pieces.len() - 1][i] != '\n');
        }
        let rest = nonblank_lines(front);
        let all = nonblank_lines(pieces);
        assert forall|i: int| 0 <= i < all.len() implies (#[trigger] all[i]).len() > 0 by {
            if i < rest.len() {
                assert(all[i] == rest[i]);
            }
        }
        assert forall|i: int, j: int| 0 <= i < all.len() && 0 <= j < all[i].len() implies #[trigger] all[i][j] != '\n' by {
            if i < rest.len() {
                assert(all[i] == rest[i]);
            } else {
                assert(all[i] == trim(last));
            }
        }
    }
}

/// A condensed summary has one or two lines, none of them blank: it is the
/// line-feed join of at most two non-empty texts without line feeds.
pub proof fn lemma_condensed_shape(summary: Seq<char>)
    ensures
        summary_lines(summary).len() <= 2,
        forall|i: int| 0 <= i < summary_lines(summary).len() ==> (#[trigger] summary_lines(summary)[i]).len() > 0,
        forall|i: int, j: int|
            0 <= i < summary_lines(summary).len() && 0 <= j < summary_lines(summary)[i].len() ==> #[trigger] summary_lines(
                summary,
            )[i][j] != '\n',
        condensed(summary) is None <==> nonblank_lines(split_lines(summary)).len() == 0,
{
    lemma_split_lines_no_feed(summary);
    lemma_nonblank_lines_shape(split_lines(summary));
    let all = nonblank_lines(split_lines(summary));
    assert forall|i: int| 0 <= i < summary_lines(summary).len() implies #[trigger] summary_lines(summary)[i] == all[i] by {
    }
}

} // verus!
