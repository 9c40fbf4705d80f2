//! Articles of RSS and Atom documents, read from the document's XML events.
use vstd::prelude::*;

use crate::json::{nonblank, nonblank_str, opt_view};
use crate::normalization::NormalizationError;
use crate::text::{ascii_lower, ascii_lower_chars, chars_of, str_eq, string_from, trim};
use crate::xml::{
    attribute_views, lossy_utf8, open_xml, utf8_lossy, xml_attributes_at, xml_event_at, xml_last_attributes,
    xml_last_name, xml_last_text, xml_next_event, xml_start_name_at, xml_text_at, XmlAttribute, XmlAttributeView,
    XmlEvent, XmlEventView,
};

verus! {

/// The fields of one `item` or `entry` gathered so far.
#[derive(Debug)]
pub struct XmlArticle {
    pub title: Option<String>,
    pub identifier: Option<String>,
    pub link: Option<String>,
    pub publication_date: Option<String>,
    pub source_name: Option<String>,
}

pub struct ArticleDraft {
    pub title: Option<Seq<char>>,
    pub identifier: Option<Seq<char>>,
    pub link: Option<Seq<char>>,
    pub publication_date: Option<Seq<char>>,
    pub source_name: Option<Seq<char>>,
}

impl View for XmlArticle {
    type V = ArticleDraft;

    open spec fn view(&self) -> ArticleDraft {
        ArticleDraft {
            title: opt_view(self.title),
            identifier: opt_view(self.identifier),
            link: opt_view(self.link),
            publication_date: opt_view(self.publication_date),
            source_name: opt_view(self.source_name),
        }
    }
}

pub open spec fn empty_draft() -> ArticleDraft {
    ArticleDraft { title: None, identifier: None, link: None, publication_date: None, source_name: None }
}

pub open spec fn opt_draft(a: Option<XmlArticle>) -> Option<ArticleDraft> {
    match a {
        Some(x) => Some(x@),
        None => None,
    }
}

/// The part of `s` after its last colon (all of `s` when it has none).
pub open spec fn after_last_colon(s: Seq<char>) -> Seq<char>
    decreases s.len(),
{
    if s.len() == 0 {
        s
    } else if s.last() == ':' {
        Seq::<char>::empty()
    } else {
        after_last_colon(s.drop_last()).push(s.last())
    }
}

/// The local name of a raw XML name, in ASCII lower case.
pub open spec fn local_tag(raw: Seq<u8>) -> Seq<char> {
    ascii_lower(after_last_colon(utf8_lossy(raw)))
}

pub open spec fn article_tag(tag: Seq<char>) -> bool {
    tag == "item"@ || tag == "entry"@
}

/// An article after a text found inside element `tag`: titles, links and
/// publisher names take the latest text, identifiers and dates the first.
pub open spec fn apply_text(article: Option<ArticleDraft>, tag: Option<Seq<char>>, text: Seq<char>) -> Option<ArticleDraft> {
    match (nonblank(Some(text)), article, tag) {
        (Some(t), Some(a), Some(g)) => Some(
            if g == "title"@ {
                ArticleDraft { title: Some(t), ..a }
            } else if g == "guid"@ || g == "id"@ {
                if a.identifier is None {
                    ArticleDraft { identifier: Some(t), ..a }
                } else {
                    a
                }
            } else if g == "link"@ {
                ArticleDraft { link: Some(t), ..a }
            } else if g == "pubdate"@ || g == "published"@ || g == "updated"@ || g == "date"@ {
                if a.publication_date is None {
                    ArticleDraft { publication_date: Some(t), ..a }
                } else {
                    a
                }
            } else if g == "source"@ || g == "publisher"@ {
                ArticleDraft { source_name: Some(t), ..a }
            } else {
                a
            },
        ),
        _ => article,
    }
}

/// One step of reading a feed document, with tag names already reduced to
/// their lower-case local names. `link` is the link a `link` tag carries in
/// its attributes, read only for a `link` tag inside an article.
#[derive(Debug)]
pub enum FeedEvent {
    Start { tag: String, link: Option<String> },
    Empty { tag: String, link: Option<String> },
    Text(String),
    End { tag: String },
}

/// A feed step as a mathematical value.
pub enum FeedEventView {
    Start { tag: Seq<char>, link: Option<Seq<char>> },
    Empty { tag: Seq<char>, link: Option<Seq<char>> },
    Text(Seq<char>),
    End { tag: Seq<char> },
}

impl View for FeedEvent {
    type V = FeedEventView;

    open spec fn view(&self) -> FeedEventView {
        match self {
            FeedEvent::Start { tag, link } => FeedEventView::Start { tag: tag@, link: opt_view(*link) },
            FeedEvent::Empty { tag, link } => FeedEventView::Empty { tag: tag@, link: opt_view(*link) },
            FeedEvent::Text(t) => FeedEventView::Text(t@),
            FeedEvent::End { tag } => FeedEventView::End { tag: tag@ },
        }
    }
}

/// What has been read of a feed document.
pub struct FeedState {
    pub articles: Seq<ArticleDraft>,
    pub article: Option<ArticleDraft>,
    pub tag: Option<Seq<char>>,
}

pub open spec fn initial_feed_state() -> FeedState {
    FeedState { articles: Seq::empty(), article: None, tag: None }
}

/// The open article after a tag that may carry a link: a `link` tag's link
/// becomes the article's link.
pub open spec fn with_link(article: Option<ArticleDraft>, tag: Seq<char>, link: Option<Seq<char>>) -> Option<ArticleDraft> {
    match (article, link) {
        (Some(a), Some(l)) => if tag == "link"@ {
            Some(ArticleDraft { link: Some(l), ..a })
        } else {
            Some(a)
        },
        _ => article,
    }
}

/// The state after one event: an `item` or `entry` start opens an empty
/// article; any other start tag becomes the current tag; text fills the open
/// article by the current tag; an article's end tag closes it and appends
/// it; every end tag clears the current tag.
pub open spec fn feed_step(st: FeedState, ev: FeedEventView) -> FeedState {
    match ev {
        FeedEventView::Start { tag, link } => if article_tag(tag) {
            FeedState { article: Some(empty_draft()), tag: None, ..st }
        } else {
            FeedState { article: with_link(st.article, tag, link), tag: Some(tag), ..st }
        },
        FeedEventView::Empty { tag, link } => FeedState { article: with_link(st.article, tag, link), ..st },
        FeedEventView::Text(text) => FeedState { article: apply_text(st.article, st.tag, text), ..st },
        FeedEventView::End { tag } => if article_tag(tag) {
            match st.article {
                Some(a) => FeedState { articles: st.articles.push(a), article: None, tag: None },
                None => FeedState { tag: None, ..st },
            }
        } else {
            FeedState { tag: None, ..st }
        },
    }
}

/// The state after a sequence of events, from the initial state.
pub open spec fn feed_run(events: Seq<FeedEventView>) -> FeedState
    decreases events.len(),
{
    if events.len() == 0 {
        initial_feed_state()
    } else {
        feed_step(feed_run(events.drop_last()), events.last())
    }
}

pub open spec fn event_views(events: Seq<FeedEvent>) -> Seq<FeedEventView> {
    events.map_values(|e: FeedEvent| e@)
}

/// The local name of a raw XML name in ASCII lower case.
pub fn tag_name(value: &[u8]) -> (tag: String)
    ensures
        tag@ == local_tag(value@),
{
    let text = lossy_utf8(value);
    let chars = chars_of(text.as_str());
    let mut start: usize = chars.len();
    assert(chars@.take(start as int) =~= chars@);
    assert(chars@.skip(start as int) =~= Seq::<char>::empty());
    assert(after_last_colon(chars@) + Seq::<char>::empty() =~= after_last_colon(chars@));
    while start > 0 && chars[start - 1] != ':'
        invariant
            start <= chars.len(),
            after_last_colon(chars@) == after_last_colon(chars@.take(start as int)) + chars@.skip(start as int),
        decreases start,
    {
        proof {
            let t = chars@.take(start as int);
            assert(t.drop_last() =~= chars@.take(start - 1));
            assert(t.last() == chars@[start - 1]);
            assert(seq![chars@[start - 1]] + chars@.skip(start as int) =~= chars@.skip(start - 1));
            assert(after_last_colon(t) == after_last_colon(t.drop_last()).push(t.last()));
            assert(after_last_colon(t.drop_last()).push(t.last()) + chars@.skip(start as int)
                =~= after_last_colon(t.drop_last()) + chars@.skip(start - 1));
        }
        start = start - 1;
    }
    proof {
        let t = chars@.take(start as int);
        if start > 0 {
            assert(t.last() == ':');
        }
        assert(after_last_colon(t) =~= Seq::<char>::empty());
        assert(Seq::<char>::empty() + chars@.skip(start as int) =~= chars@.skip(start as int));
    }
    let mut local: Vec<char> = Vec::new();
    let mut i: usize = start;
    while i < chars.len()
        invariant
            start <= i <= chars.len(),
            local@ == chars@.subrange(start as int, i as int),
        decreases chars.len() - i,
    {
        local.push(chars[i]);
        assert(local@ =~= chars@.subrange(start as int, i + 1));
        i = i + 1;
    }
    assert(local@ =~= chars@.skip(start as int));
    let lower = ascii_lower_chars(local.as_slice());
    string_from(lower.as_slice())
}

/// Whether a local tag name opens an article (`item` in RSS, `entry` in Atom).
pub fn is_article_tag(tag: &str) -> (r: bool)
    ensures
        r == article_tag(tag@),
{
    str_eq(tag, "item") || str_eq(tag, "entry")
}

fn str_is_one_of(tag: &str, a: &str, b: &str) -> (r: bool)
    ensures
        r == (tag@ == a@ || tag@ == b@),
{
    str_eq(tag, a) || str_eq(tag, b)
}

/// An article after a text found inside the element named `current_tag`.
pub fn apply_xml_text(article: Option<XmlArticle>, current_tag: Option<&str>, text: String) -> (r: Option<XmlArticle>)
    ensures
        opt_draft(r) == apply_text(opt_draft(article), match current_tag {
            Some(t) => Some(t@),
            None => None,
        }, text@),
{
    let t = match nonblank_str(text.as_str()) {
        Some(t) => t,
        None => {
            return article;
        },
    };
    let tag = match current_tag {
        Some(tag) => tag,
        None => {
            return article;
        },
    };
    let mut a = match article {
        Some(a) => a,
        None => {
            return None;
        },
    };
    if str_eq(tag, "title") {
        a.title = Some(t);
    } else if str_is_one_of(tag, "guid", "id") {
        if a.identifier.is_none() {
            a.identifier = Some(t);
        }
    } else if str_eq(tag, "link") {
        a.link = Some(t);
    } else if str_is_one_of(tag, "pubdate", "published") || str_is_one_of(tag, "updated", "date") {
        if a.publication_date.is_none() {
            a.publication_date = Some(t);
        }
    } else if str_is_one_of(tag, "source", "publisher") {
        a.source_name = Some(t);
    }
    Some(a)
}

/// Reads the feed document's events in order.
pub struct FeedCollector {
    pub articles: Vec<XmlArticle>,
    pub article: Option<XmlArticle>,
    pub current_tag: Option<String>,
}

impl View for FeedCollector {
    type V = FeedState;

    open spec fn view(&self) -> FeedState {
        FeedState {
            articles: self.articles@.map_values(|a: XmlArticle| a@),
            article: opt_draft(self.article),
            tag: opt_view(self.current_tag),
        }
    }
}

impl FeedCollector {
    pub fn new() -> (c: FeedCollector)
        ensures
            c@ == initial_feed_state(),
    {
        let c = FeedCollector { articles: Vec::new(), article: None, current_tag: None };
        assert(c@.articles =~= Seq::<ArticleDraft>::empty());
        c
    }

    /// Takes one event into account.
    pub fn apply(&mut self, event: FeedEvent)
        ensures
            final(self)@ == feed_step(old(self)@, event@),
    {
        match event {
            FeedEvent::Start { tag, link } => {
                if is_article_tag(tag.as_str()) {
                    self.article = Some(
                        XmlArticle { title: None, identifier: None, link: None, publication_date: None, source_name: None },
                    );
                    self.current_tag = None;
                } else {
                    let current = self.article.take();
                    self.article = match (current, link) {
                        (Some(mut a), Some(l)) => {
                            if str_eq(tag.as_str(), "link") {
                                a.link = Some(l);
                            }
                            Some(a)
                        },
                        (current, _) => current,
                    };
                    self.current_tag = Some(tag);
                }
            },
            FeedEvent::Empty { tag, link } => {
                let current = self.article.take();
                self.article = match (current, link) {
                    (Some(mut a), Some(l)) => {
                        if str_eq(tag.as_str(), "link") {
                            a.link = Some(l);
                        }
                        Some(a)
                    },
                    (current, _) => current,
                };
            },
            FeedEvent::Text(text) => {
                let current = self.article.take();
                let tag = match &self.current_tag {
                    Some(t) => Some(t.as_str()),
                    None => None,
                };
                self.article = apply_xml_text(current, tag, text);
            },
            FeedEvent::End { tag } => {
                if is_article_tag(tag.as_str()) {
                    match self.article.take() {
                        Some(a) => {
                            self.articles.push(a);
                            assert(self@.articles =~= old(self)@.articles.push(old(self)@.article.unwrap()));
                        },
                        None => {},
                    }
                }
                self.current_tag = None;
            },
        }
    }
}

pub open spec fn drafts(articles: Seq<XmlArticle>) -> Seq<ArticleDraft> {
    articles.map_values(|a: XmlArticle| a@)
}

/// The articles gathered from a sequence of feed events.
pub fn collect_articles(events: Vec<FeedEvent>) -> (articles: Vec<XmlArticle>)
    ensures
        drafts(articles@) == feed_run(event_views(events@)).articles,
{
    let ghost all = event_views(events@);
    let ghost given = events@;
    let mut collector = FeedCollector::new();
    let mut events = events;
    let mut i: usize = 0;
    let total = events.len();
    assert(all.len() == total);
    while events.len() > 0
        invariant
            events@ == given.skip(i as int),
            all == event_views(given),
            i <= all.len(),
            events@.len() + i == all.len(),
            all.len() <= usize::MAX,
            collector@ == feed_run(all.take(i as int)),
        decreases events.len(),
    {
        let event = events.remove(0);
        proof {
            assert(event == given[i as int]);
            assert(all[i as int] == event@);
            assert(all.take(i + 1).drop_last() =~= all.take(i as int));
            assert(events@ =~= given.skip(i + 1));
        }
        collector.apply(event);
        i = i + 1;
    }
    assert(all.take(i as int) =~= all);
    collector.articles
}

/// The value of the first attribute whose local name is `name`; reading stops
/// at a malformed attribute or at an invalid escape in the found value.
pub open spec fn attribute_lookup(attributes: Seq<XmlAttributeView>, name: Seq<char>) -> Result<Option<Seq<char>>, Seq<char>>
    decreases attributes.len(),
{
    if attributes.len() == 0 {
        Ok(None)
    } else {
        match attributes[0] {
            XmlAttributeView::Invalid(e) => Err("invalid XML attribute: "@ + e),
            XmlAttributeView::Valid(key, value) => if local_tag(key) == name {
                match value {
                    Ok(v) => Ok(Some(v)),
                    Err(e) => Err("invalid escaped XML attribute: "@ + e),
                }
            } else {
                attribute_lookup(attributes.drop_first(), name)
            },
        }
    }
}

pub open spec fn error_view(r: Result<Option<String>, NormalizationError>) -> Result<Option<Seq<char>>, Seq<char>> {
    match r {
        Ok(o) => Ok(opt_view(o)),
        Err(e) => Err(e.message_view()),
    }
}

fn prefixed_error(prefix: &str, detail: &String) -> (e: NormalizationError)
    ensures
        e.message_view() == prefix@ + detail@,
{
    let mut v = chars_of(prefix);
    crate::text::append_str(&mut v, detail.as_str());
    NormalizationError::new(string_from(v.as_slice()))
}

/// The value of the first attribute whose local name is `expected_name`.
pub fn attribute_value(attributes: &[XmlAttribute], expected_name: &str) -> (r: Result<Option<String>, NormalizationError>)
    ensures
        error_view(r) == attribute_lookup(attribute_views(attributes@), expected_name@),
{
    let ghost views = attribute_views(attributes@);
    let mut i: usize = 0;
    assert(views.skip(0) =~= views);
    while i < attributes.len()
        invariant
            i <= attributes@.len(),
            views == attribute_views(attributes@),
            attribute_lookup(views, expected_name@) == attribute_lookup(views.skip(i as int), expected_name@),
        decreases attributes.len() - i,
    {
        assert(views.skip(i as int).drop_first() =~= views.skip(i + 1));
        assert(views.skip(i as int)[0] == attributes@[i as int]@);
        match &attributes[i] {
            XmlAttribute::Invalid(e) => {
                return Err(prefixed_error("invalid XML attribute: ", e));
            },
            XmlAttribute::Valid(key, value) => {
                let name = tag_name(key.as_slice());
                if str_eq(name.as_str(), expected_name) {
                    return match value {
                        Ok(v) => Ok(Some(v.clone())),
                        Err(e) => Err(prefixed_error("invalid escaped XML attribute: ", e)),
                    };
                }
            },
        }
        i = i + 1;
    }
    Ok(None)
}

/// The link of a `link` element: its `href`, unless a `rel` other than
/// `alternate` (in any letter case) marks it as some other kind of link.
pub open spec fn link_of(attributes: Seq<XmlAttributeView>) -> Result<Option<Seq<char>>, Seq<char>> {
    match attribute_lookup(attributes, "rel"@) {
        Err(e) => Err(e),
        Ok(Some(rel)) => if ascii_lower(rel) != "alternate"@ {
            Ok(None)
        } else {
            attribute_lookup(attributes, "href"@)
        },
        Ok(None) => attribute_lookup(attributes, "href"@),
    }
}

/// The article link carried by a `link` element's attributes.
pub fn article_link(attributes: &[XmlAttribute]) -> (r: Result<Option<String>, NormalizationError>)
    ensures
        error_view(r) == link_of(attribute_views(attributes@)),
{
    let relation = attribute_value(attributes, "rel")?;
    if let Some(rel) = relation {
        let lower = crate::text::ascii_lower_str(rel.as_str());
        if !str_eq(lower.as_str(), "alternate") {
            return Ok(None);
        }
    }
    attribute_value(attributes, "href")
}

/// The feed step made of the XML event read at `position` from `body`, given
/// what has been read before it: tags reduced to their local names, and a
/// `link` tag inside an article carrying the link its attributes give.
/// Nothing for markup that the feed rules ignore; the failure's message when
/// the link's attributes cannot be read.
pub open spec fn feed_event_at(body: Seq<u8>, position: nat, st: FeedState) -> Result<Option<FeedEventView>, Seq<char>> {
    match xml_event_at(body, position) {
        XmlEventView::Start => {
            let tag = local_tag(xml_start_name_at(body, position));
            if !article_tag(tag) && st.article is Some && tag == "link"@ {
                match link_of(xml_attributes_at(body, position)) {
                    Err(m) => Err(m),
                    Ok(link) => Ok(Some(FeedEventView::Start { tag, link })),
                }
            } else {
                Ok(Some(FeedEventView::Start { tag, link: None }))
            }
        },
        XmlEventView::Empty => {
            let tag = local_tag(xml_start_name_at(body, position));
            if tag == "link"@ && st.article is Some {
                match link_of(xml_attributes_at(body, position)) {
                    Err(m) => Err(m),
                    Ok(link) => Ok(Some(FeedEventView::Empty { tag, link })),
                }
            } else {
                Ok(Some(FeedEventView::Empty { tag, link: None }))
            }
        },
        XmlEventView::Text => match xml_text_at(body, position) {
            Ok(t) => Ok(Some(FeedEventView::Text(t))),
            Err(m) => Err("invalid escaped XML text: "@ + m),
        },
        XmlEventView::CData(bytes) => Ok(Some(FeedEventView::Text(utf8_lossy(bytes)))),
        XmlEventView::End(name) => Ok(Some(FeedEventView::End { tag: local_tag(name) })),
        _ => Ok(None),
    }
}

/// An article is added only when an `item` or `entry` closes while one is
/// open, and then at the end: articles come one per closed article element,
/// in document order.
pub proof fn lemma_articles_added_at_close(st: FeedState, ev: FeedEventView)
    ensures
        feed_step(st, ev).articles == st.articles || (ev matches FeedEventView::End { tag } && article_tag(tag)
            && st.article is Some && feed_step(st, ev).articles == st.articles.push(st.article.unwrap())),
{
}

/// Within one article the first non-blank date text is kept: a text inside a
/// `pubdate`, `published`, `updated` or `date` element sets the publication
/// date, trimmed, only while the article has none, and leaves the article
/// as it is once it has one.
pub proof fn lemma_first_date_wins(article: ArticleDraft, tag: Seq<char>, text: Seq<char>)
    requires
        tag == "pubdate"@ || tag == "published"@ || tag == "updated"@ || tag == "date"@,
    ensures
        article.publication_date is Some ==> apply_text(Some(article), Some(tag), text) == Some(article),
        (article.publication_date is None && trim(text).len() > 0) ==> (apply_text(Some(article), Some(tag), text)
            matches Some(b) && b.publication_date == Some(trim(text)) && b.title == article.title
            && b.identifier == article.identifier && b.link == article.link && b.source_name == article.source_name),
{
    reveal_strlit("pubdate");
    reveal_strlit("published");
    reveal_strlit("updated");
    reveal_strlit("date");
    reveal_strlit("title");
    reveal_strlit("guid");
    reveal_strlit("id");
    reveal_strlit("link");
    assert(tag.len() != 4 || tag[0] == 'd');
    assert("guid"@[0] == 'g' && "link"@[0] == 'l');
    assert(tag != "title"@);
    assert(tag != "guid"@);
    assert(tag != "id"@);
    assert(tag != "link"@);
}

/// Within one article the first non-blank identifier text is kept, while a
/// title, link or publisher text replaces the one before it.
pub proof fn lemma_identifier_first_others_latest(article: ArticleDraft, tag: Seq<char>, text: Seq<char>)
    requires
        trim(text).len() > 0,
    ensures
        (tag == "guid"@ || tag == "id"@) ==> apply_text(Some(article), Some(tag), text) == Some(
            if article.identifier is None {
                ArticleDraft { identifier: Some(trim(text)), ..article }
            } else {
                article
            },
        ),
        tag == "title"@ ==> apply_text(Some(article), Some(tag), text) == Some(ArticleDraft { title: Some(trim(text)), ..article }),
        tag == "link"@ ==> apply_text(Some(article), Some(tag), text) == Some(ArticleDraft { link: Some(trim(text)), ..article }),
        (tag == "source"@ || tag == "publisher"@) ==> apply_text(Some(article), Some(tag), text) == Some(
            ArticleDraft { source_name: Some(trim(text)), ..article },
        ),
{
    reveal_strlit("title");
    reveal_strlit("guid");
    reveal_strlit("id");
    reveal_strlit("link");
    reveal_strlit("source");
    reveal_strlit("publisher");
    reveal_strlit("pubdate");
    reveal_strlit("published");
    reveal_strlit("updated");
    reveal_strlit("date");
    assert("guid"@[0] == 'g' && "link"@[0] == 'l' && "date"@[0] == 'd' && "title"@[0] == 't');
    assert("source"@[0] == 's' && "publisher"@[0] == 'p' && "pubdate"@[0] == 'p' && "updated"@[0] == 'u');
    assert("publisher"@[3] == 'l' && "published"@[8] == 'd' && "publisher"@[8] == 'r');
}

/// A `link` element whose `rel` is present and is not `alternate` (in any
/// letter case) carries no link; otherwise its `href` is the link.
pub proof fn lemma_only_alternate_links(attributes: Seq<XmlAttributeView>)
    ensures
        attribute_lookup(attributes, "rel"@) matches Ok(Some(rel)) ==> (ascii_lower(rel) != "alternate"@ ==> link_of(
            attributes,
        ) == Ok::<Option<Seq<char>>, Seq<char>>(None)),
        attribute_lookup(attributes, "rel"@) matches Ok(Some(rel)) ==> (ascii_lower(rel) == "alternate"@ ==> link_of(
            attributes,
        ) == attribute_lookup(attributes, "href"@)),
        attribute_lookup(attributes, "rel"@) == Ok::<Option<Seq<char>>, Seq<char>>(None) ==> link_of(attributes) == attribute_lookup(
            attributes,
            "href"@,
        ),
{
}

/// The message for a document that gives more events than it has bytes.
pub open spec fn too_many_events() -> Seq<char> {
    "XML document has more events than bytes"@
}

/// Reading `body` from event `position` on, with `st` read so far: the
/// articles once the document ends; the reader's message for a document that
/// is not well-formed, text with invalid escapes, or a link whose attributes
/// cannot be read. Every event but the last takes at least one byte, so the
/// reading stops after as many events as the document has bytes.
pub open spec fn feed_scan(body: Seq<u8>, position: nat, st: FeedState) -> Result<Seq<ArticleDraft>, Seq<char>>
    decreases body.len() - position,
{
    if position > body.len() {
        Err(too_many_events())
    } else {
        match xml_event_at(body, position) {
            XmlEventView::Eof => Ok(st.articles),
            XmlEventView::Error(m) => Err("invalid RSS or Atom XML document: "@ + m),
            _ => match feed_event_at(body, position, st) {
                Err(m) => Err(m),
                Ok(step) => {
                    let next = match step {
                        Some(e) => feed_step(st, e),
                        None => st,
                    };
                    if position == body.len() {
                        Err(too_many_events())
                    } else {
                        feed_scan(body, position + 1, next)
                    }
                },
            },
        }
    }
}

/// The articles of an RSS or Atom document, in the order their `item` or
/// `entry` elements close, or the message of the failure that stops reading.
pub open spec fn feed_document(body: Seq<u8>) -> Result<Seq<ArticleDraft>, Seq<char>> {
    feed_scan(body, 0, initial_feed_state())
}

pub open spec fn articles_view(r: Result<Vec<XmlArticle>, NormalizationError>) -> Result<Seq<ArticleDraft>, Seq<char>> {
    match r {
        Ok(a) => Ok(drafts(a@)),
        Err(e) => Err(e.message_view()),
    }
}

/// Reads the articles of an RSS or Atom document.
pub fn parse_xml_articles(body: &[u8]) -> (r: Result<Vec<XmlArticle>, NormalizationError>)
    ensures
        articles_view(r) == feed_document(body@),
{
    let mut doc = open_xml(body);
    let mut collector = FeedCollector::new();
    let limit = body.len();
    let mut count: usize = 0;
    loop
        invariant
            count <= limit,
            limit == body@.len(),
            doc@ == (body@, count as nat),
            feed_document(body@) == feed_scan(body@, count as nat, collector@),
        decreases limit - count,
    {
        let ghost st = collector@;
        let event = xml_next_event(&mut doc);
        let ghost position = count as nat;
        let step = match event {
            XmlEvent::Start => {
                let name = xml_last_name(&doc);
                let tag = tag_name(name.as_slice());
                let mut link: Option<String> = None;
                if !is_article_tag(tag.as_str()) && collector.article.is_some() && str_eq(tag.as_str(), "link") {
                    let attributes = xml_last_attributes(&doc);
                    link = article_link(attributes.as_slice())?;
                }
                Some(FeedEvent::Start { tag, link })
            },
            XmlEvent::Empty => {
                let name = xml_last_name(&doc);
                let tag = tag_name(name.as_slice());
                let mut link: Option<String> = None;
                if str_eq(tag.as_str(), "link") && collector.article.is_some() {
                    let attributes = xml_last_attributes(&doc);
                    link = article_link(attributes.as_slice())?;
                }
                Some(FeedEvent::Empty { tag, link })
            },
            XmlEvent::Text => match xml_last_text(&doc) {
                Ok(t) => Some(FeedEvent::Text(t)),
                Err(error) => {
                    return Err(prefixed_error("invalid escaped XML text: ", &error));
                },
            },
            XmlEvent::CData(bytes) => Some(FeedEvent::Text(lossy_utf8(bytes.as_slice()))),
            XmlEvent::End(name) => Some(FeedEvent::End { tag: tag_name(name.as_slice()) }),
            XmlEvent::Other => None,
            XmlEvent::Eof => {
                return Ok(collector.articles);
            },
            XmlEvent::Error(message) => {
                return Err(prefixed_error("invalid RSS or Atom XML document: ", &message));
            },
        };
        proof {
            let expected = feed_event_at(body@, position, st);
            match &step {
                Some(e) => assert(expected == Ok::<Option<FeedEventView>, Seq<char>>(Some(e@))),
                None => assert(expected == Ok::<Option<FeedEventView>, Seq<char>>(None)),
            }
        }
        match step {
            Some(e) => collector.apply(e),
            None => {},
        }
        if count == limit {
            let message = "XML document has more events than bytes".to_owned();
            return Err(NormalizationError::new(message));
        }
        count = count + 1;
    }
}

} // verus!
