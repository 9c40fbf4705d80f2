//! URL parsing and joining through the `url` types that reqwest re-exports.
use vstd::prelude::*;

verus! {

/// What `reqwest::Url::parse` gives for a text: the serialized URL on
/// success, the parse error's message otherwise.
pub uninterp spec fn parsed_url(s: Seq<char>) -> Result<Seq<char>, Seq<char>>;

/// What parsing `base` with `reqwest::Url::parse` and then calling
/// `Url::join` with `reference` gives: the serialized URL, or the message of
/// the first error.
pub uninterp spec fn joined_url(base: Seq<char>, reference: Seq<char>) -> Result<Seq<char>, Seq<char>>;

pub open spec fn result_view(r: Result<String, String>) -> Result<Seq<char>, Seq<char>> {
    match r {
        Ok(s) => Ok(s@),
        Err(e) => Err(e@),
    }
}

/// Calls `reqwest::Url::parse`; the contract names its result, the URL's
/// text (`Url::to_string`) or the error's message.
#[verifier::external_body]
pub(crate) fn parse_url(s: &str) -> (r: Result<String, String>)
    ensures
        result_view(r) == parsed_url(s@),
{
    match reqwest::Url::parse(s) {
        Ok(url) => Ok(url.to_string()),
        Err(error) => Err(error.to_string()),
    }
}

/// Calls `reqwest::Url::parse` on `base` and `Url::join` with `reference`;
/// the contract names the result, the joined URL's text or the first error's
/// message.
#[verifier::external_body]
pub(crate) fn join_url(base: &str, reference: &str) -> (r: Result<String, String>)
    ensures
        result_view(r) == joined_url(base@, reference@),
{
    match reqwest::Url::parse(base).and_then(|url| url.join(reference)) {
        Ok(url) => Ok(url.to_string()),
        Err(error) => Err(error.to_string()),
    }
}

} // verus!
