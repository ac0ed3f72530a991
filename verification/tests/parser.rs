use rag_search::error::SearchError;
use rag_search::search::{
    google_parser, google_results, normalize, read_member, read_text, GoogleParser, ResultParser,
    SearchResult,
};

fn document(text: &str) -> serde_json::Value {
    serde_json::from_str(text).expect("the test document is valid JSON")
}

#[test]
fn parser_reads_each_element_in_order() {
    let raw = document(
        r#"[
            {"url": "https://a.example", "siteName": "A", "textContent": "first"},
            {"url": "https://b.example", "siteName": "B", "textContent": "second"}
        ]"#,
    );
    let output = google_parser(&raw).expect("an array is accepted");
    assert_eq!(output.results.len(), 2);
    assert_eq!(
        output.results[0],
        SearchResult {
            url: "https://a.example".to_string(),
            site_name: "A".to_string(),
            text_content: "first".to_string(),
        }
    );
    assert_eq!(output.results[1].url, "https://b.example");
    assert_eq!(output.results[1].site_name, "B");
    assert_eq!(output.results[1].text_content, "second");
}

#[test]
fn parser_is_lenient_with_a_missing_site_name() {
    let raw = document(
        r#"[
            {"url": "https://a.example", "textContent": "first"},
            {"url": "https://b.example", "siteName": "B", "textContent": "second"}
        ]"#,
    );
    let output = google_parser(&raw).expect("a missing member does not fail the call");
    assert_eq!(output.results.len(), 2);
    assert_eq!(output.results[0].site_name, "");
    assert_eq!(output.results[0].url, "https://a.example");
    assert_eq!(output.results[0].text_content, "first");
    assert_eq!(output.results[1].site_name, "B");
}

#[test]
fn parser_leaves_every_missing_field_empty() {
    let raw = document(r#"[{}, 7, "text", null, [1, 2]]"#);
    let output = google_parser(&raw).expect("elements of any kind are accepted");
    assert_eq!(output.results.len(), 5);
    for result in &output.results {
        assert_eq!(result.url, "");
        assert_eq!(result.site_name, "");
        assert_eq!(result.text_content, "");
    }
}

#[test]
fn parser_renders_members_that_are_no_strings_as_json() {
    let raw = document(
        r#"[{"url": null, "siteName": 12, "textContent": {"a": [true, "x\ny"]}}]"#,
    );
    let output = google_parser(&raw).expect("an array is accepted");
    assert_eq!(output.results[0].url, "null");
    assert_eq!(output.results[0].site_name, "12");
    assert_eq!(output.results[0].text_content, "{\"a\":[true,\"x\\ny\"]}");
}

#[test]
fn parser_reads_a_string_member_by_its_content() {
    let raw = document(
        r#"[{"url": "https://a.example/?q=\"x\"", "siteName": "", "textContent": "line one\nline \u00e9\ttwo \\ end"}]"#,
    );
    let output = google_parser(&raw).expect("an array is accepted");
    assert_eq!(output.results[0].url, "https://a.example/?q=\"x\"");
    assert_eq!(output.results[0].site_name, "");
    assert_eq!(output.results[0].text_content, "line one\nline \u{e9}\ttwo \\ end");
}

#[test]
fn a_value_is_read_as_text() {
    assert_eq!(read_text(&document("\"alpha\"")), "alpha");
    assert_eq!(read_text(&document("\"\"")), "");
    assert_eq!(read_text(&document("\"null\"")), "null");
    assert_eq!(read_text(&document("null")), "null");
    assert_eq!(read_text(&document("false")), "false");
    assert_eq!(read_text(&document("-3")), "-3");
    assert_eq!(read_text(&document("[\"a\", 1]")), "[\"a\",1]");
    assert_eq!(read_text(&document("{\"k\": \"v\"}")), "{\"k\":\"v\"}");
}

#[test]
fn a_member_is_read_where_there_is_one() {
    let item = document(r#"{"url": "u", "n": 1}"#);
    assert_eq!(read_member(&item, "url"), Some("u".to_string()));
    assert_eq!(read_member(&item, "n"), Some("1".to_string()));
    assert_eq!(read_member(&item, "siteName"), None);
    assert_eq!(read_member(&document("[1]"), "url"), None);
    assert_eq!(read_member(&document("\"url\""), "url"), None);
}

#[test]
fn parser_accepts_an_empty_array() {
    let output = google_parser(&document("[]")).expect("an empty array is an array");
    assert!(output.results.is_empty());
}

#[test]
fn parser_rejects_an_object() {
    let raw = document(r#"{"results": []}"#);
    assert_eq!(
        google_parser(&raw),
        Err(SearchError::Response("No results returned from server".to_string()))
    );
}

#[test]
fn parser_rejects_every_value_that_is_no_array() {
    for text in ["null", "true", "3", "\"[]\"", "{}"] {
        match google_parser(&document(text)) {
            Err(SearchError::Response(reason)) => {
                assert_eq!(reason, "No results returned from server")
            }
            other => panic!("{} gave {:?}", text, other),
        }
    }
}

#[test]
fn google_parser_is_the_parser_of_the_google_provider() {
    let raw = document(r#"[{"url": "u", "siteName": "s", "textContent": "t"}]"#);
    assert_eq!(GoogleParser.parse(&raw), google_parser(&raw));
    let bad = document("{}");
    assert_eq!(GoogleParser.parse(&bad), google_parser(&bad));
}

#[test]
fn normalize_keeps_what_was_read() {
    let result = normalize(Some("u".to_string()), None, Some("t".to_string()));
    assert_eq!(
        result,
        SearchResult {
            url: "u".to_string(),
            site_name: String::new(),
            text_content: "t".to_string()
        }
    );
    let nothing = normalize(None, None, None);
    assert_eq!(nothing.url, "");
    assert_eq!(nothing.site_name, "");
    assert_eq!(nothing.text_content, "");
}

#[test]
fn results_are_read_from_the_elements() {
    assert_eq!(
        google_results(None),
        Err(SearchError::Response("No results returned from server".to_string()))
    );
    let none: Vec<serde_json::Value> = Vec::new();
    assert_eq!(google_results(Some(&none)).map(|output| output.results.len()), Ok(0));
    let items = vec![document(r#"{"url": 1}"#), document(r#"{"siteName": "s"}"#)];
    let output = google_results(Some(&items)).expect("elements are read");
    assert_eq!(output.results.len(), 2);
    assert_eq!(output.results[0].url, "1");
    assert_eq!(output.results[0].site_name, "");
    assert_eq!(output.results[1].url, "");
    assert_eq!(output.results[1].site_name, "s");
}
