//! Normalized search results and the parsers that read them from what a
//! provider answered.

use vstd::prelude::*;
use crate::error::{SearchError, SearchErrorView};
use crate::json::{
    elements, json_elements, json_member, json_string, json_text, member, render, string_content,
};

verus! {

/// One normalized search result.
#[derive(Clone, Debug, PartialEq, Eq)]
pub struct SearchResult {
    pub url: String,
    pub site_name: String,
    pub text_content: String,
}

/// The mathematical value of a [`SearchResult`].
pub struct SearchResultView {
    pub url: Seq<char>,
    pub site_name: Seq<char>,
    pub text_content: Seq<char>,
}

impl View for SearchResult {
    type V = SearchResultView;

    open spec fn view(&self) -> SearchResultView {
        SearchResultView {
            url: self.url@,
            site_name: self.site_name@,
            text_content: self.text_content@,
        }
    }
}

/// What a search call yields, in the order in which the provider gave it.
#[derive(Clone, Debug, PartialEq, Eq)]
pub struct SearchOutput {
    pub results: Vec<SearchResult>,
}

impl View for SearchOutput {
    type V = Seq<SearchResultView>;

    open spec fn view(&self) -> Seq<SearchResultView> {
        self.results@.map_values(|r: SearchResult| r@)
    }
}

/// The mathematical value of what a parser returns.
pub open spec fn parse_view(outcome: Result<SearchOutput, SearchError>) -> Result<
    Seq<SearchResultView>,
    SearchErrorView,
> {
    match outcome {
        Ok(output) => Ok(output@),
        Err(error) => Err(error@),
    }
}

/// Reads the normalized results from the decoded response of one provider.
///
/// A parser is a function of the response: `parsed` says what it reads. It
/// reports a response that it cannot read as `SearchError::Response`.
pub trait ResultParser {
    /// What this parser reads from the response `raw`.
    spec fn parsed(&self, raw: serde_json::Value) -> Result<Seq<SearchResultView>, SearchErrorView>;

    fn parse(&self, raw: &serde_json::Value) -> (outcome: Result<SearchOutput, SearchError>)
        ensures
            parse_view(outcome) == self.parsed(*raw),
            outcome matches Err(error) ==> error is Response,
    ;
}

/// The text of a field: the text that was read, or nothing where the
/// response has no such member.
pub open spec fn field_text(read: Option<Seq<char>>) -> Seq<char> {
    match read {
        Some(text) => text,
        None => Seq::empty(),
    }
}

/// The text of a value: the content of a string, and the JSON text of a
/// value of any other kind.
pub open spec fn value_text(value: serde_json::Value) -> Seq<char> {
    match json_string(value) {
        Some(content) => content,
        None => json_text(value),
    }
}

/// The text of the member `key` of `item`, where it has one.
pub open spec fn member_text(item: serde_json::Value, key: Seq<char>) -> Option<Seq<char>> {
    match json_member(item, key) {
        Some(found) => Some(value_text(found)),
        None => None,
    }
}

/// The result that the Google parser reads from one element of a response.
pub open spec fn google_result(item: serde_json::Value) -> SearchResultView {
    SearchResultView {
        url: field_text(member_text(item, "url"@)),
        site_name: field_text(member_text(item, "siteName"@)),
        text_content: field_text(member_text(item, "textContent"@)),
    }
}

/// The value of an optional text.
pub open spec fn text_view(text: Option<String>) -> Option<Seq<char>> {
    match text {
        Some(t) => Some(t@),
        None => None,
    }
}

/// Reads a value as text: a string gives its content, a value of any other
/// kind its JSON text.
pub fn read_text(value: &serde_json::Value) -> (text: String)
    ensures
        text@ == value_text(*value),
{
    match string_content(value) {
        Some(content) => content.to_string(),
        None => render(value),
    }
}

/// Reads the member `key` of `item` as text, where it has one.
pub fn read_member(item: &serde_json::Value, key: &str) -> (read: Option<String>)
    ensures
        text_view(read) == member_text(*item, key@),
{
    match member(item, key) {
        Some(found) => Some(read_text(found)),
        None => None,
    }
}

/// Builds a result from the texts that were read for its three fields. A
/// field that was not read is left empty: a result with gaps is worth more
/// than no result.
pub fn normalize(
    url: Option<String>,
    site_name: Option<String>,
    text_content: Option<String>,
) -> (result: SearchResult)
    ensures
        result@ == (SearchResultView {
            url: field_text(text_view(url)),
            site_name: field_text(text_view(site_name)),
            text_content: field_text(text_view(text_content)),
        }),
{
    SearchResult {
        url: match url {
            Some(text) => text,
            None => String::new(),
        },
        site_name: match site_name {
            Some(text) => text,
            None => String::new(),
        },
        text_content: match text_content {
            Some(text) => text,
            None => String::new(),
        },
    }
}

/// What the Google parser makes of the elements of a response, or of the
/// lack of them.
pub open spec fn google_read(items: Option<Seq<serde_json::Value>>) -> Result<
    Seq<SearchResultView>,
    SearchErrorView,
> {
    match items {
        Some(items) => Ok(items.map_values(|item: serde_json::Value| google_result(item))),
        None => Err(SearchErrorView::Response("No results returned from server"@)),
    }
}

/// What the Google parser reads from a response.
pub open spec fn google_parsed(raw: serde_json::Value) -> Result<
    Seq<SearchResultView>,
    SearchErrorView,
> {
    google_read(json_elements(raw))
}

/// Reads one result from each element of a response, in order. A response
/// that has no elements, because it is no array, is rejected as
/// `SearchError::Response`.
pub fn google_results(items: Option<&Vec<serde_json::Value>>) -> (outcome: Result<
    SearchOutput,
    SearchError,
>)
    ensures
        parse_view(outcome) == google_read(
            match items {
                Some(items) => Some(items@),
                None => None,
            },
        ),
        outcome is Ok <==> items is Some,
        outcome matches Ok(output) ==> output.results.len() == items->0.len(),
{
    let items = match items {
        Some(items) => items,
        None => {
            return Err(SearchError::Response("No results returned from server".to_string()));
        },
    };
    let mut results: Vec<SearchResult> = Vec::new();
    let mut i: usize = 0;
    while i < items.len()
        invariant
            i <= items.len(),
            results.len() == i,
            forall|k: int| 0 <= k < i ==> (#[trigger] results[k])@ == google_result(items[k]),
        decreases items.len() - i,
    {
        let item = &items[i];
        let current = normalize(
            read_member(item, "url"),
            read_member(item, "siteName"),
            read_member(item, "textContent"),
        );
        results.push(current);
        i = i + 1;
    }
    let output = SearchOutput { results };
    assert(output@ =~= items@.map_values(|item: serde_json::Value| google_result(item)));
    Ok(output)
}

/// Reads the results of a Google search from the provider's response.
///
/// The response must be an array; any other value is rejected as
/// `SearchError::Response`. Each element gives one result, in order, from
/// its members `url`, `siteName` and `textContent`. A field holds the
/// content of its member where that is a string, the JSON text of a member
/// of any other kind, and nothing where the element has no such member.
pub fn google_parser(raw_results: &serde_json::Value) -> (outcome: Result<
    SearchOutput,
    SearchError,
>)
    ensures
        parse_view(outcome) == google_parsed(*raw_results),
        outcome is Ok <==> json_elements(*raw_results) is Some,
{
    google_results(elements(raw_results))
}

/// The parser for the Google provider.
#[derive(Clone, Copy, Debug, PartialEq, Eq)]
pub struct GoogleParser;

impl ResultParser for GoogleParser {
    open spec fn parsed(&self, raw: serde_json::Value) -> Result<
        Seq<SearchResultView>,
        SearchErrorView,
    > {
        google_parsed(raw)
    }

    fn parse(&self, raw: &serde_json::Value) -> (outcome: Result<SearchOutput, SearchError>) {
        google_parser(raw)
    }
}

} // verus!
