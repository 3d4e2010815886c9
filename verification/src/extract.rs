//! Finding the embedded data document in a fetched page and reading it as a tree.

use vstd::prelude::*;
use crate::json::{at, json_parse, key, spec_items, take_at, take_items, take_key, Json};
use crate::types::Error;

verus! {

/// What the first capture group of `pattern` holds in the leftmost match in `text`,
/// as the `regex` crate finds it: `None` where the pattern does not compile, does
/// not match, or matches without the group.
pub uninterp spec fn first_capture(pattern: Seq<char>, text: Seq<char>) -> Option<Seq<char>>;

/// `regex::Regex::new`, then `Regex::captures` and `Captures::get(1)` on the result.
/// The contract only names what comes back: the same pattern and text always give
/// the same capture.
#[verifier::external_body]
fn capture_first_group(pattern: &str, text: &str) -> (r: Option<String>)
    ensures
        match r {
            Some(span) => first_capture(pattern@, text@) == Some(span@),
            None => first_capture(pattern@, text@) is None,
        },
{
    let compiled = regex::Regex::new(pattern).ok()?;
    compiled.captures(text)?.get(1).map(|m| m.as_str().to_owned())
}

/// The delimiter pattern: the assignment of an object literal to the page's data
/// variable, closed by the end of its script element. The group is the literal.
pub open spec fn document_pattern() -> Seq<char> {
    "var ytInitialData = (\\{.*?\\});</script>"@
}

/// What parsing a captured span gives: its tree, or a parse error.
pub open spec fn spec_parse_document(span: Seq<char>) -> Result<Json, Error> {
    match json_parse(span) {
        Some(document) => Ok(document),
        None => Err(Error::ExtractionParseError),
    }
}

/// What extraction gives for a page: the parse of the span that the delimiter
/// pattern captures, or `ExtractionNotFound` where the pattern captures nothing.
pub open spec fn spec_extract_document(page: Seq<char>) -> Result<Json, Error> {
    match first_capture(document_pattern(), page) {
        Some(span) => spec_parse_document(span),
        None => Err(Error::ExtractionNotFound),
    }
}

/// Where a search page keeps its list of results.
pub open spec fn search_list<'a>(document: Option<&'a Json>) -> Option<&'a Json> {
    let columns = key(key(document, "contents"), "twoColumnSearchResultsRenderer");
    let sections = key(key(key(columns, "primaryContents"), "sectionListRenderer"), "contents");
    key(key(at(sections, 0), "itemSectionRenderer"), "contents")
}

/// Where a channel page keeps its grid of videos.
pub open spec fn channel_grid<'a>(document: Option<&'a Json>) -> Option<&'a Json> {
    let tabs = key(key(key(document, "contents"), "twoColumnBrowseResultsRenderer"), "tabs");
    let tab = key(key(at(tabs, 1), "tabRenderer"), "content");
    key(key(tab, "richGridRenderer"), "contents")
}

/// Reads a captured span as a JSON tree.
pub fn parse_document(span: &str) -> (r: Result<Json, Error>)
    ensures
        r == spec_parse_document(span@),
{
    match Json::parse(span) {
        Some(document) => Ok(document),
        None => Err(Error::ExtractionParseError),
    }
}

/// Finds the embedded data document in `page` and reads it as a JSON tree.
pub fn extract_document(page: &str) -> (r: Result<Json, Error>)
    ensures
        r == spec_extract_document(page@),
{
    match capture_first_group("var ytInitialData = (\\{.*?\\});</script>", page) {
        Some(span) => parse_document(span.as_str()),
        None => Err(Error::ExtractionNotFound),
    }
}

/// The list of results that a search page embeds.
pub fn extract_contents_from_yt_page(input: String) -> (r: Result<Vec<Json>, Error>)
    ensures
        match spec_extract_document(input@) {
            Ok(document) => match spec_items(search_list(Some(&document))) {
                Some(list) => r == Ok::<Vec<Json>, Error>(*list),
                None => r == Err::<Vec<Json>, Error>(Error::SchemaMismatch),
            },
            Err(e) => r == Err::<Vec<Json>, Error>(e),
        },
{
    match extract_document(input.as_str()) {
        Ok(document) => {
            let columns = take_key(
                take_key(Some(document), "contents"),
                "twoColumnSearchResultsRenderer",
            );
            let sections = take_key(
                take_key(take_key(columns, "primaryContents"), "sectionListRenderer"),
                "contents",
            );
            let found = take_key(
                take_key(take_at(sections, 0), "itemSectionRenderer"),
                "contents",
            );
            match take_items(found) {
                Some(list) => Ok(list),
                None => Err(Error::SchemaMismatch),
            }
        },
        Err(e) => Err(e),
    }
}

} // verus!
