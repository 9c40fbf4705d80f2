//! Object keys of raw source documents kept in object storage.
use vstd::prelude::*;

use crate::date::{push_signed_decimal, signed_decimal, slash_date, CalendarDate};
use crate::text::{append_str, chars_of, strip_char_chars, strip_char_end, strip_char_start, string_from};

verus! {

/// A persisted raw document and the key stored alongside its policy version.
#[derive(Debug)]
pub struct SnapshotReference {
    /// Object-storage key for the immutable raw source document.
    pub object_key: String,
}

/// The key prefix with every leading and trailing `/` removed.
pub open spec fn bare_prefix(prefix: Seq<char>) -> Seq<char> {
    strip_char_end(strip_char_start(prefix, '/'), '/')
}

/// `{prefix}/sources/{source_id}/{YYYY/MM/DD}/{content_hash}`, with the
/// prefix and its slash left out when the bare prefix is empty.
pub open spec fn snapshot_key_text(prefix: Seq<char>, source_id: int, content_hash: Seq<char>, observed_on: CalendarDate) -> Seq<char> {
    let tail = "sources/"@ + signed_decimal(source_id) + "/"@ + slash_date(observed_on) + "/"@ + content_hash;
    if bare_prefix(prefix).len() == 0 {
        tail
    } else {
        bare_prefix(prefix) + "/"@ + tail
    }
}

/// The object key of a document of `source_id` with `content_hash`, observed on `observed_on`.
pub fn snapshot_key(prefix: &str, source_id: i64, content_hash: &str, observed_on: CalendarDate) -> (key: String)
    ensures
        key@ == snapshot_key_text(prefix@, source_id as int, content_hash@, observed_on),
{
    let raw = chars_of(prefix);
    let mut v = strip_char_chars(raw.as_slice(), '/');
    let ghost bare = v@;
    if v.len() > 0 {
        v.push('/');
    }
    let ghost head = v@;
    append_str(&mut v, "sources/");
    push_signed_decimal(&mut v, source_id);
    v.push('/');
    observed_on.push_with_separator(&mut v, '/');
    v.push('/');
    append_str(&mut v, content_hash);
    proof {
        reveal_strlit("sources/");
        reveal_strlit("/");
        let tail = "sources/"@ + signed_decimal(source_id as int) + "/"@ + slash_date(observed_on) + "/"@ + content_hash@;
        assert(v@ =~= head + tail);
        if bare.len() == 0 {
            assert(head =~= Seq::<char>::empty());
            assert(v@ =~= tail);
        } else {
            assert(head =~= bare + "/"@);
            assert(v@ =~= bare + "/"@ + tail);
        }
    }
    string_from(v.as_slice())
}

} // verus!
