//! JSON documents as plain values, and the lookups that the source rules use.
use vstd::prelude::*;

use crate::text::{chars_of, trim, trim_chars, string_from};

verus! {

/// A JSON document. Numbers keep their decimal text; an object keeps its
/// members in order, and a lookup finds the first member with a given key.
#[derive(Debug)]
pub enum JsonValue {
    Null,
    Bool(bool),
    Number(String),
    Str(String),
    Array(Vec<JsonValue>),
    Object(Vec<(String, JsonValue)>),
}

/// The value of the first member named `key`.
pub open spec fn lookup(members: Seq<(String, JsonValue)>, key: Seq<char>) -> Option<JsonValue>
    decreases members.len(),
{
    if members.len() == 0 {
        None
    } else if members[0].0@ == key {
        Some(members[0].1)
    } else {
        lookup(members.drop_first(), key)
    }
}

/// `v[key]` for an object, nothing for any other value.
pub open spec fn json_get(v: JsonValue, key: Seq<char>) -> Option<JsonValue> {
    match v {
        JsonValue::Object(members) => lookup(members@, key),
        _ => None,
    }
}

/// The text of a string value.
pub open spec fn json_str(v: JsonValue) -> Option<Seq<char>> {
    match v {
        JsonValue::Str(s) => Some(s@),
        _ => None,
    }
}

/// The elements of an array value.
pub open spec fn json_array(v: JsonValue) -> Option<Seq<JsonValue>> {
    match v {
        JsonValue::Array(items) => Some(items@),
        _ => None,
    }
}

/// The text of member `key` when it is a string.
pub open spec fn get_str(v: JsonValue, key: Seq<char>) -> Option<Seq<char>> {
    match json_get(v, key) {
        Some(x) => json_str(x),
        None => None,
    }
}

/// The elements of member `key` when it is an array.
pub open spec fn get_array(v: JsonValue, key: Seq<char>) -> Option<Seq<JsonValue>> {
    match json_get(v, key) {
        Some(x) => json_array(x),
        None => None,
    }
}

/// The text of the first of `keys` whose member is a string.
pub open spec fn first_str(v: JsonValue, keys: Seq<Seq<char>>) -> Option<Seq<char>>
    decreases keys.len(),
{
    if keys.len() == 0 {
        None
    } else {
        match get_str(v, keys[0]) {
            Some(s) => Some(s),
            None => first_str(v, keys.drop_first()),
        }
    }
}

/// The views of a list of string slices.
pub open spec fn str_views(keys: Seq<&str>) -> Seq<Seq<char>> {
    keys.map_values(|k: &str| k@)
}

/// A present, non-blank text, trimmed.
pub open spec fn nonblank(o: Option<Seq<char>>) -> Option<Seq<char>> {
    match o {
        Some(s) => if trim(s).len() > 0 {
            Some(trim(s))
        } else {
            None
        },
        None => None,
    }
}

pub open spec fn opt_view(o: Option<String>) -> Option<Seq<char>> {
    match o {
        Some(s) => Some(s@),
        None => None,
    }
}

pub open spec fn deref_opt<T>(o: Option<&T>) -> Option<T> {
    match o {
        Some(x) => Some(*x),
        None => None,
    }
}

/// A JSON string holding `s`, or null for nothing.
pub open spec fn is_opt_text(v: JsonValue, o: Option<Seq<char>>) -> bool {
    match o {
        Some(s) => json_str(v) == Some(s),
        None => v is Null,
    }
}

/// A member named `key` whose value is the text `o` (null for nothing).
pub open spec fn is_text_member(m: (String, JsonValue), key: Seq<char>, o: Option<Seq<char>>) -> bool {
    m.0@ == key && is_opt_text(m.1, o)
}

impl JsonValue {
    /// The value of member `key` when `self` is an object.
    pub fn get(&self, key: &str) -> (r: Option<&JsonValue>)
        ensures
            deref_opt(r) == json_get(*self, key@),
    {
        match self {
            JsonValue::Object(members) => {
                let k = chars_of(key);
                let mut i: usize = 0;
                assert(members@.skip(0) =~= members@);
                while i < members.len()
                    invariant
                        i <= members@.len(),
                        k@ == key@,
                        json_get(*self, key@) == lookup(members@, key@),
                        lookup(members@, key@) == lookup(members@.skip(i as int), key@),
                    decreases members.len() - i,
                {
                    assert(members@.skip(i as int).drop_first() =~= members@.skip(i + 1));
                    let name = chars_of(members[i].0.as_str());
                    if crate::text::chars_eq(name.as_slice(), k.as_slice()) {
                        assert(members@.skip(i as int)[0] == members@[i as int]);
                        assert(members@[i as int].0@ == key@);
                        assert(lookup(members@.skip(i as int), key@) == Some(members@[i as int].1));
                        let found = &members[i].1;
                        assert(*found == members@[i as int].1);
                        return Some(found);
                    }
                    i = i + 1;
                }
                None
            },
            _ => None,
        }
    }

    /// The text of a string value.
    pub fn as_str(&self) -> (r: Option<&str>)
        ensures
            match r {
                Some(s) => json_str(*self) == Some(s@),
                None => json_str(*self) is None,
            },
    {
        match self {
            JsonValue::Str(s) => Some(s.as_str()),
            _ => None,
        }
    }

    /// The elements of an array value.
    pub fn as_array(&self) -> (r: Option<&Vec<JsonValue>>)
        ensures
            match r {
                Some(items) => json_array(*self) == Some(items@),
                None => json_array(*self) is None,
            },
    {
        match self {
            JsonValue::Array(items) => Some(items),
            _ => None,
        }
    }

    /// The text of member `key` when it is a string.
    pub fn get_str(&self, key: &str) -> (r: Option<&str>)
        ensures
            match r {
                Some(s) => get_str(*self, key@) == Some(s@),
                None => get_str(*self, key@) is None,
            },
    {
        match self.get(key) {
            Some(v) => v.as_str(),
            None => None,
        }
    }

    /// The elements of member `key` when it is an array.
    pub fn get_array(&self, key: &str) -> (r: Option<&Vec<JsonValue>>)
        ensures
            match r {
                Some(items) => get_array(*self, key@) == Some(items@),
                None => get_array(*self, key@) is None,
            },
    {
        match self.get(key) {
            Some(v) => v.as_array(),
            None => None,
        }
    }

    /// The text of the first of `keys` whose member is a string.
    pub fn first_str(&self, keys: &[&str]) -> (r: Option<String>)
        ensures
            opt_view(r) == first_str(*self, str_views(keys@)),
    {
        let mut i: usize = 0;
        assert(str_views(keys@).skip(0) =~= str_views(keys@));
        while i < keys.len()
            invariant
                i <= keys@.len(),
                first_str(*self, str_views(keys@)) == first_str(*self, str_views(keys@).skip(i as int)),
            decreases keys.len() - i,
        {
            assert(str_views(keys@).skip(i as int).drop_first() =~= str_views(keys@).skip(i + 1));
            assert(str_views(keys@).skip(i as int)[0] == keys@[i as int]@);
            match self.get_str(keys[i]) {
                Some(s) => {
                    return Some(s.to_owned());
                },
                None => {},
            }
            i = i + 1;
        }
        None
    }

    /// A string value holding the characters of `s`.
    pub fn text(s: &str) -> (v: JsonValue)
        ensures
            json_str(v) == Some(s@),
    {
        JsonValue::Str(s.to_owned())
    }
}

/// The trimmed text when it is not blank.
pub fn nonblank_str(s: &str) -> (r: Option<String>)
    ensures
        opt_view(r) == nonblank(Some(s@)),
{
    let v = chars_of(s);
    let t = trim_chars(v.as_slice());
    if t.len() == 0 {
        None
    } else {
        Some(string_from(t.as_slice()))
    }
}

/// `nonblank` over an optional owned text.
pub fn non_empty(o: Option<String>) -> (r: Option<String>)
    ensures
        opt_view(r) == nonblank(opt_view(o)),
{
    match o {
        Some(s) => nonblank_str(s.as_str()),
        None => None,
    }
}

/// A JSON string for a present text, null otherwise.
pub fn opt_text(o: &Option<String>) -> (v: JsonValue)
    ensures
        is_opt_text(v, opt_view(*o)),
{
    match o {
        Some(s) => JsonValue::text(s.as_str()),
        None => JsonValue::Null,
    }
}

} // verus!
