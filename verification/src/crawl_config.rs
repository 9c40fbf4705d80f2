//! Typed reading and validation of a source's crawler configuration.
use vstd::prelude::*;

use crate::config::{parse_u64_text, parse_u64, IntErrorKind};
use crate::json::{json_str, lookup, JsonValue};
use crate::text::{append_str, chars_of, string_from};

verus! {

/// Bounded discovery settings stored in `sources.crawl_config`.
///
/// A source without both crawl bounds remains a start-URLs-only source, so
/// discovery is opt-in for existing source rows.
#[derive(Clone, Debug, PartialEq, Eq)]
pub struct CrawlConfig {
    /// Explicit documents fetched for every run.
    pub start_paths: Vec<String>,
    /// Explicit sitemap documents used as discovery entry points.
    pub sitemap_paths: Vec<String>,
    /// Explicit RSS or Atom documents used as discovery entry points.
    pub feed_paths: Vec<String>,
    /// Allowed path prefixes for URLs found during discovery.
    pub allowed_path_prefixes: Vec<String>,
    /// Regular expressions that a discovered URL must match when present.
    pub include_patterns: Vec<String>,
    /// Regular expressions that reject a discovered URL.
    pub exclude_patterns: Vec<String>,
    /// Maximum total documents fetched during a discovery-enabled source run.
    pub max_pages: Option<usize>,
    /// Maximum discovered-link distance from an explicit entry point.
    pub max_depth: Option<usize>,
}

/// An invalid source crawler configuration.
#[derive(Debug)]
pub enum CrawlConfigError {
    /// The JSON shape did not match the crawler contract.
    Deserialize(String),
    /// Discovery bounds were incomplete or unsafe.
    InvalidBounds(String),
}

impl CrawlConfigError {
    /// The failure as reported.
    pub fn message(&self) -> (m: String)
        ensures
            m@ == match self {
                CrawlConfigError::Deserialize(d) => "invalid crawl_config: "@ + d@,
                CrawlConfigError::InvalidBounds(b) => "invalid crawl_config bounds: "@ + b@,
            },
    {
        let mut v = match self {
            CrawlConfigError::Deserialize(_) => chars_of("invalid crawl_config: "),
            CrawlConfigError::InvalidBounds(_) => chars_of("invalid crawl_config bounds: "),
        };
        match self {
            CrawlConfigError::Deserialize(d) => append_str(&mut v, d.as_str()),
            CrawlConfigError::InvalidBounds(b) => append_str(&mut v, b.as_str()),
        }
        string_from(v.as_slice())
    }
}

/// The texts of a list of strings.
pub open spec fn texts(l: Seq<String>) -> Seq<Seq<char>> {
    l.map_values(|s: String| s@)
}

/// The configuration's member names, in field order.
pub open spec fn crawl_field_name(k: int) -> Seq<char> {
    if k == 0 {
        "start_paths"@
    } else if k == 1 {
        "sitemap_paths"@
    } else if k == 2 {
        "feed_paths"@
    } else if k == 3 {
        "allowed_path_prefixes"@
    } else if k == 4 {
        "include_patterns"@
    } else if k == 5 {
        "exclude_patterns"@
    } else if k == 6 {
        "max_pages"@
    } else {
        "max_depth"@
    }
}

/// Whether the value can hold a configuration: an object, or an array of at
/// most eight values given in field order.
pub open spec fn crawl_container(value: JsonValue) -> bool {
    match value {
        JsonValue::Object(_) => true,
        JsonValue::Array(items) => items@.len() <= 8,
        _ => false,
    }
}

/// The value given for field `k`, if any.
pub open spec fn crawl_member(value: JsonValue, k: int) -> Option<JsonValue> {
    match value {
        JsonValue::Object(members) => lookup(members@, crawl_field_name(k)),
        JsonValue::Array(items) => if 0 <= k < items@.len() {
            Some(items@[k])
        } else {
            None
        },
        _ => None,
    }
}

/// The texts of an array of strings.
pub open spec fn string_list(v: JsonValue) -> Option<Seq<Seq<char>>> {
    match v {
        JsonValue::Array(items) => if forall|i: int| 0 <= i < items@.len() ==> (#[trigger] json_str(items@[i])) is Some {
            Some(items@.map_values(|x: JsonValue| json_str(x).unwrap()))
        } else {
            None
        },
        _ => None,
    }
}

/// A list field: empty when absent, otherwise an array of strings.
pub open spec fn list_field(value: JsonValue, k: int) -> Option<Seq<Seq<char>>> {
    match crawl_member(value, k) {
        None => Some(Seq::empty()),
        Some(v) => string_list(v),
    }
}

/// A count field: unset when absent or null, otherwise a non-negative integer.
pub open spec fn count_field(value: JsonValue, k: int) -> Option<Option<usize>> {
    match crawl_member(value, k) {
        None => Some(None),
        Some(JsonValue::Null) => Some(None),
        Some(JsonValue::Number(t)) => if t@.len() > 0 && t@[0] != '+' {
            match parse_u64_text(t@) {
                Ok(n) => if n <= usize::MAX {
                    Some(Some(n as usize))
                } else {
                    None
                },
                Err(_) => None,
            }
        } else {
            None
        },
        _ => None,
    }
}

/// Whether the value has the configuration's shape.
pub open spec fn crawl_shape_ok(value: JsonValue) -> bool {
    &&& crawl_container(value)
    &&& forall|k: int| 0 <= k < 6 ==> (#[trigger] list_field(value, k)) is Some
    &&& count_field(value, 6) is Some
    &&& count_field(value, 7) is Some
}

pub open spec fn config_lists(c: CrawlConfig) -> Seq<Seq<Seq<char>>> {
    seq![
        texts(c.start_paths@),
        texts(c.sitemap_paths@),
        texts(c.feed_paths@),
        texts(c.allowed_path_prefixes@),
        texts(c.include_patterns@),
        texts(c.exclude_patterns@),
    ]
}

/// The configuration holds what the value gives.
pub open spec fn config_from(c: CrawlConfig, value: JsonValue) -> bool {
    &&& forall|k: int| 0 <= k < 6 ==> Some(#[trigger] config_lists(c)[k]) == list_field(value, k)
    &&& Some(c.max_pages) == count_field(value, 6)
    &&& Some(c.max_depth) == count_field(value, 7)
}

/// The bounds rule: none, or both with at least one page.
pub open spec fn bounds_problem(max_pages: Option<usize>, max_depth: Option<usize>) -> Option<Seq<char>> {
    match (max_pages, max_depth) {
        (None, None) => None,
        (Some(p), _) if p == 0 => Some("max_pages must be greater than zero"@),
        (Some(_), Some(_)) => None,
        _ => Some("max_pages and max_depth must be configured together"@),
    }
}

fn string_list_of(v: &JsonValue) -> (r: Option<Vec<String>>)
    ensures
        match r {
            Some(l) => string_list(*v) == Some(texts(l@)),
            None => string_list(*v) is None,
        },
{
    match v {
        JsonValue::Array(items) => {
            let mut out: Vec<String> = Vec::new();
            let mut i: usize = 0;
            while i < items.len()
                invariant
                    i <= items@.len(),
                    out@.len() == i,
                    string_list(*v) == string_list(JsonValue::Array(*items)),
                    forall|j: int| 0 <= j < i ==> (#[trigger] json_str(items@[j])) == Some(out@[j]@),
                decreases items.len() - i,
            {
                match items[i].as_str() {
                    Some(s) => {
                        out.push(s.to_owned());
                    },
                    None => {
                        assert(json_str(items@[i as int]) is None);
                        return None;
                    },
                }
                i = i + 1;
            }
            assert(texts(out@) =~= items@.map_values(|x: JsonValue| json_str(x).unwrap()));
            Some(out)
        },
        _ => None,
    }
}

fn member<'a>(value: &'a JsonValue, k: usize) -> (r: Option<&'a JsonValue>)
    requires
        k < 8,
    ensures
        crate::json::deref_opt(r) == crawl_member(*value, k as int),
{
    let name = if k == 0 {
        "start_paths"
    } else if k == 1 {
        "sitemap_paths"
    } else if k == 2 {
        "feed_paths"
    } else if k == 3 {
        "allowed_path_prefixes"
    } else if k == 4 {
        "include_patterns"
    } else if k == 5 {
        "exclude_patterns"
    } else if k == 6 {
        "max_pages"
    } else {
        "max_depth"
    };
    match value {
        JsonValue::Object(_) => value.get(name),
        JsonValue::Array(items) => {
            if k < items.len() {
                Some(&items[k])
            } else {
                None
            }
        },
        _ => None,
    }
}

fn count_of(value: &JsonValue, k: usize) -> (r: Result<Option<usize>, ()>)
    requires
        k < 8,
    ensures
        match r {
            Ok(c) => count_field(*value, k as int) == Some(c),
            Err(_) => count_field(*value, k as int) is None,
        },
{
    match member(value, k) {
        None => Ok(None),
        Some(JsonValue::Null) => Ok(None),
        Some(JsonValue::Number(t)) => {
            let chars = chars_of(t.as_str());
            if chars.len() == 0 || chars[0] == '+' {
                return Err(());
            }
            match parse_u64(t.as_str()) {
                Ok(n) => {
                    if n as u128 <= usize::MAX as u128 {
                        Ok(Some(n as usize))
                    } else {
                        Err(())
                    }
                },
                Err(_) => Err(()),
            }
        },
        _ => Err(()),
    }
}

impl CrawlConfig {
    /// Reads and validates a crawl configuration from the source's JSON value.
    pub fn parse(value: &JsonValue) -> (r: Result<CrawlConfig, CrawlConfigError>)
        ensures
            match r {
                Ok(c) => crawl_shape_ok(*value) && config_from(c, *value) && bounds_problem(c.max_pages, c.max_depth) is None,
                Err(CrawlConfigError::Deserialize(_)) => !crawl_shape_ok(*value),
                Err(CrawlConfigError::InvalidBounds(m)) => crawl_shape_ok(*value) && bounds_problem(
                    count_field(*value, 6).unwrap(),
                    count_field(*value, 7).unwrap(),
                ) == Some(m@),
            },
    {
        let container_ok = match value {
            JsonValue::Object(_) => true,
            JsonValue::Array(items) => items.len() <= 8,
            _ => false,
        };
        if !container_ok {
            return Err(CrawlConfigError::Deserialize("crawl_config must be an object".to_owned()));
        }
        let mut lists: Vec<Vec<String>> = Vec::new();
        let mut k: usize = 0;
        while k < 6
            invariant
                k <= 6,
                lists@.len() == k,
                forall|j: int| 0 <= j < k ==> list_field(*value, j) == Some(texts((#[trigger] lists@[j])@)),
            decreases 6 - k,
        {
            let list = match member(value, k) {
                None => Vec::new(),
                Some(v) => match string_list_of(v) {
                    Some(l) => l,
                    None => {
                        return Err(
                            CrawlConfigError::Deserialize("crawl_config path and pattern lists must hold strings".to_owned()),
                        );
                    },
                },
            };
            assert(list_field(*value, k as int) == Some(texts(list@))) by {
                if crawl_member(*value, k as int) is None {
                    assert(texts(list@) =~= Seq::<Seq<char>>::empty());
                }
            };
            lists.push(list);
            k = k + 1;
        }
        let max_pages = match count_of(value, 6) {
            Ok(c) => c,
            Err(_) => {
                return Err(CrawlConfigError::Deserialize("max_pages must be a non-negative integer".to_owned()));
            },
        };
        let max_depth = match count_of(value, 7) {
            Ok(c) => c,
            Err(_) => {
                return Err(CrawlConfigError::Deserialize("max_depth must be a non-negative integer".to_owned()));
            },
        };
        let ghost views = lists@;
        let exclude_patterns = lists.pop().unwrap();
        let include_patterns = lists.pop().unwrap();
        let allowed_path_prefixes = lists.pop().unwrap();
        let feed_paths = lists.pop().unwrap();
        let sitemap_paths = lists.pop().unwrap();
        let start_paths = lists.pop().unwrap();
        let config = CrawlConfig {
            start_paths,
            sitemap_paths,
            feed_paths,
            allowed_path_prefixes,
            include_patterns,
            exclude_patterns,
            max_pages,
            max_depth,
        };
        proof {
            assert forall|j: int| 0 <= j < 6 implies Some(#[trigger] config_lists(config)[j]) == list_field(*value, j) by {
                assert(config_lists(config)[j] == texts(views[j]@));
            }
        }
        config.validate()?;
        Ok(config)
    }

    /// Whether bounded discovery is explicitly enabled for this source.
    pub fn discovery_enabled(&self) -> (r: bool)
        ensures
            r == (self.max_pages is Some && self.max_depth is Some),
    {
        self.max_pages.is_some() && self.max_depth.is_some()
    }

    /// Checks the discovery bounds: none, or both with at least one page.
    pub fn validate(&self) -> (r: Result<(), CrawlConfigError>)
        ensures
            match r {
                Ok(_) => bounds_problem(self.max_pages, self.max_depth) is None,
                Err(CrawlConfigError::InvalidBounds(m)) => bounds_problem(self.max_pages, self.max_depth) == Some(m@),
                Err(CrawlConfigError::Deserialize(_)) => false,
            },
    {
        match (self.max_pages, self.max_depth) {
            (None, None) => Ok(()),
            (Some(0), _) => Err(CrawlConfigError::InvalidBounds("max_pages must be greater than zero".to_owned())),
            (Some(_), Some(_)) => Ok(()),
            _ => Err(CrawlConfigError::InvalidBounds("max_pages and max_depth must be configured together".to_owned())),
        }
    }
}

/// A configuration that passes validation either leaves discovery off (no
/// bounds) or enables it with both bounds and at least one page; discovery
/// is enabled exactly when both bounds are present.
pub proof fn lemma_valid_bounds(max_pages: Option<usize>, max_depth: Option<usize>)
    requires
        bounds_problem(max_pages, max_depth) is None,
    ensures
        (max_pages is None && max_depth is None) || (max_pages matches Some(p) && p > 0 && max_depth is Some),
{
}

/// List `l` is what member `name` of an object gives: the member's strings,
/// or nothing when the object has no such member.
pub open spec fn list_read_from(members: Seq<(String, JsonValue)>, name: Seq<char>, l: Seq<String>) -> bool {
    match lookup(members, name) {
        Some(x) => string_list(x) == Some(texts(l)),
        None => l.len() == 0,
    }
}

/// Count `n` is what member `name` of an object gives: unset when the
/// member is absent or null, and the member's integer when it is a number.
pub open spec fn count_read_from(members: Seq<(String, JsonValue)>, name: Seq<char>, n: Option<usize>) -> bool {
    match lookup(members, name) {
        None => n is None,
        Some(JsonValue::Null) => n is None,
        Some(JsonValue::Number(t)) => n matches Some(v) && parse_u64_text(t@) == Ok::<u64, IntErrorKind>(v as u64),
        _ => false,
    }
}

/// Each field of a configuration read from an object is read from the
/// member of the same name: `exclude_patterns` from `"exclude_patterns"`,
/// `include_patterns` from `"include_patterns"`, and so on, a list being
/// empty and a bound unset where its member is absent.
pub proof fn lemma_fields_read_by_name(c: CrawlConfig, value: JsonValue)
    requires
        value is Object,
        config_from(c, value),
    ensures
        list_read_from(value->Object_0@, "start_paths"@, c.start_paths@),
        list_read_from(value->Object_0@, "sitemap_paths"@, c.sitemap_paths@),
        list_read_from(value->Object_0@, "feed_paths"@, c.feed_paths@),
        list_read_from(value->Object_0@, "allowed_path_prefixes"@, c.allowed_path_prefixes@),
        list_read_from(value->Object_0@, "include_patterns"@, c.include_patterns@),
        list_read_from(value->Object_0@, "exclude_patterns"@, c.exclude_patterns@),
        count_read_from(value->Object_0@, "max_pages"@, c.max_pages),
        count_read_from(value->Object_0@, "max_depth"@, c.max_depth),
{
    assert(Some(config_lists(c)[0]) == list_field(value, 0));
    assert(Some(config_lists(c)[1]) == list_field(value, 1));
    assert(Some(config_lists(c)[2]) == list_field(value, 2));
    assert(Some(config_lists(c)[3]) == list_field(value, 3));
    assert(Some(config_lists(c)[4]) == list_field(value, 4));
    assert(Some(config_lists(c)[5]) == list_field(value, 5));
    assert(texts(c.start_paths@).len() == c.start_paths@.len());
    assert(texts(c.sitemap_paths@).len() == c.sitemap_paths@.len());
    assert(texts(c.feed_paths@).len() == c.feed_paths@.len());
    assert(texts(c.allowed_path_prefixes@).len() == c.allowed_path_prefixes@.len());
    assert(texts(c.include_patterns@).len() == c.include_patterns@.len());
    assert(texts(c.exclude_patterns@).len() == c.exclude_patterns@.len());
}

} // verus!
