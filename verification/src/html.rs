//! Reading HTML publications with scraper.
use vstd::prelude::*;

use crate::web_url::result_view;

verus! {

/// What the first element matching the CSS `selector` in the HTML document
/// holds as text (all its descendant text nodes joined), as scraper's
/// `Html::parse_document`, `Selector::parse`, `Html::select` and
/// `ElementRef::text` give it; nothing when no element matches; the
/// selector's parse error message when the selector is invalid.
pub uninterp spec fn html_first_text(document: Seq<char>, selector: Seq<char>) -> Result<Option<Seq<char>>, Seq<char>>;

/// The value of attribute `name` on the first element matching `selector` in
/// the HTML document, as scraper's `Element::attr` gives it; the selector's
/// parse error message when the selector is invalid.
pub uninterp spec fn html_first_attr(document: Seq<char>, selector: Seq<char>, name: Seq<char>) -> Result<Option<Seq<char>>, Seq<char>>;

pub open spec fn opt_result_view(r: Result<Option<String>, String>) -> Result<Option<Seq<char>>, Seq<char>> {
    match r {
        Ok(Some(s)) => Ok(Some(s@)),
        Ok(None) => Ok(None),
        Err(e) => Err(e@),
    }
}

/// Calls scraper's `Selector::parse`, `Html::parse_document`, `Html::select`
/// and `ElementRef::text`; the contract names the result.
#[verifier::external_body]
pub(crate) fn first_text(document: &str, selector: &str) -> (r: Result<Option<String>, String>)
    ensures
        opt_result_view(r) == html_first_text(document@, selector@),
{
    match scraper::Selector::parse(selector) {
        Ok(parsed) => Ok(scraper::Html::parse_document(document).select(&parsed).next().map(|e| e.text().collect())),
        Err(error) => Err(error.to_string()),
    }
}

/// Calls scraper's `Selector::parse`, `Html::parse_document`, `Html::select`
/// and `Element::attr`; the contract names the result.
#[verifier::external_body]
pub(crate) fn first_attr(document: &str, selector: &str, name: &str) -> (r: Result<Option<String>, String>)
    ensures
        opt_result_view(r) == html_first_attr(document@, selector@, name@),
{
    match scraper::Selector::parse(selector) {
        Ok(parsed) => Ok(scraper::Html::parse_document(document)
            .select(&parsed)
            .next()
            .and_then(|e| e.value().attr(name).map(|v| v.to_owned()))),
        Err(error) => Err(error.to_string()),
    }
}

/// The message `std::str::from_utf8` gives for bytes that are not UTF-8.
pub uninterp spec fn utf8_error_message(bytes: Seq<u8>) -> Seq<char>;

/// Calls `std::str::from_utf8`: the bytes as text exactly when they are valid
/// UTF-8, the error's message otherwise.
#[verifier::external_body]
pub(crate) fn utf8_str<'a>(bytes: &'a [u8]) -> (r: Result<&'a str, String>)
    ensures
        match r {
            Ok(s) => vstd::utf8::valid_utf8(bytes@) && vstd::utf8::encode_utf8(s@) == bytes@,
            Err(e) => !vstd::utf8::valid_utf8(bytes@) && e@ == utf8_error_message(bytes@),
        },
{
    std::str::from_utf8(bytes).map_err(|error| error.to_string())
}

} // verus!
