use rag_search::adapter::{
    address, cap_results, has_char, settle_parsed, HttpOutcome, SearchRequest,
};
use rag_search::error::SearchError;
use rag_search::provider::{ContentType, Header, HttpMethod, SearchProviderConfig};
use rag_search::search::{GoogleParser, SearchOutput, SearchResult};

fn google(max_results: usize) -> SearchProviderConfig<GoogleParser> {
    SearchProviderConfig::new(
        "google".to_string(),
        max_results,
        1000,
        "http://localhost:3000/search".to_string(),
        ContentType::Json,
        ContentType::Json,
        HttpMethod::Post,
        None,
        GoogleParser,
    )
    .expect("the declaration is well formed")
}

fn result(n: usize) -> SearchResult {
    SearchResult {
        url: format!("https://example.org/{}", n),
        site_name: format!("site {}", n),
        text_content: format!("text {}", n),
    }
}

fn output(count: usize) -> SearchOutput {
    SearchOutput { results: (0..count).map(result).collect() }
}

fn answered(status: u16, body: &str) -> HttpOutcome {
    HttpOutcome::Answered { status, body: body.to_string() }
}

const TWO_RESULTS: &str = r#"[
    {"url": "https://a.example", "siteName": "A", "textContent": "first"},
    {"url": "https://b.example", "siteName": "B", "textContent": "second"}
]"#;

#[test]
fn a_timeout_is_reported() {
    assert_eq!(google(5).settle(HttpOutcome::TimedOut), Err(SearchError::Timeout));
}

#[test]
fn a_transport_failure_is_reported_with_its_reason() {
    assert_eq!(
        google(5).settle(HttpOutcome::Failed("connection refused".to_string())),
        Err(SearchError::Transport("connection refused".to_string()))
    );
}

#[test]
fn a_failure_status_is_a_response_error() {
    for status in [100, 199, 300, 404, 500, 0, u16::MAX] {
        assert_eq!(
            google(5).settle(answered(status, TWO_RESULTS)),
            Err(SearchError::Response("The provider answered with a failure status".to_string()))
        );
    }
}

#[test]
fn every_success_status_is_accepted() {
    for status in [200, 201, 204, 299] {
        let settled = google(5).settle(answered(status, TWO_RESULTS)).expect("a success");
        assert_eq!(settled.results.len(), 2);
    }
}

#[test]
fn a_body_that_is_no_json_is_a_response_error() {
    for body in ["", "not json", "[1, 2", "{\"a\": }"] {
        assert_eq!(
            google(5).settle(answered(200, body)),
            Err(SearchError::Response("The response body is not valid JSON".to_string()))
        );
    }
}

#[test]
fn a_body_that_the_parser_rejects_is_a_response_error() {
    assert_eq!(
        google(5).settle(answered(200, "{\"results\": []}")),
        Err(SearchError::Response("No results returned from server".to_string()))
    );
}

#[test]
fn a_response_that_is_not_declared_as_json_is_a_response_error() {
    let form = SearchProviderConfig::new(
        "form".to_string(),
        5,
        1000,
        "http://localhost:3000/search".to_string(),
        ContentType::Json,
        ContentType::Form,
        HttpMethod::Get,
        None,
        GoogleParser,
    )
    .expect("the declaration is well formed");
    assert_eq!(
        form.settle(answered(200, TWO_RESULTS)),
        Err(SearchError::Response("The response is not declared as JSON".to_string()))
    );
}

#[test]
fn an_answer_without_results_is_an_empty_result() {
    assert_eq!(google(5).settle(answered(200, "[]")), Err(SearchError::EmptyResult));
    assert_eq!(google(0).settle(answered(200, TWO_RESULTS)), Err(SearchError::EmptyResult));
}

#[test]
fn an_answer_is_read_in_the_order_of_the_provider() {
    let settled = google(5).settle(answered(200, TWO_RESULTS)).expect("a success");
    assert_eq!(settled.results.len(), 2);
    assert_eq!(settled.results[0].url, "https://a.example");
    assert_eq!(settled.results[0].site_name, "A");
    assert_eq!(settled.results[0].text_content, "first");
    assert_eq!(settled.results[1].text_content, "second");
}

#[test]
fn an_answer_is_cut_at_the_cap() {
    let settled = google(1).settle(answered(200, TWO_RESULTS)).expect("a success");
    assert_eq!(settled.results.len(), 1);
    assert_eq!(settled.results[0].text_content, "first");
}

#[test]
fn a_decoded_document_is_settled_like_a_body() {
    let raw: serde_json::Value = serde_json::from_str(TWO_RESULTS).expect("valid JSON");
    assert_eq!(google(5).settle_document(&raw), google(5).settle(answered(200, TWO_RESULTS)));
    let empty: serde_json::Value = serde_json::from_str("[]").expect("valid JSON");
    assert_eq!(google(5).settle_document(&empty), Err(SearchError::EmptyResult));
    let object: serde_json::Value = serde_json::from_str("{}").expect("valid JSON");
    assert_eq!(
        google(5).settle_document(&object),
        Err(SearchError::Response("No results returned from server".to_string()))
    );
}

#[test]
fn the_cap_keeps_the_first_results() {
    assert_eq!(cap_results(output(7), 5), Ok(output(5)));
    assert_eq!(cap_results(output(5), 5), Ok(output(5)));
    assert_eq!(cap_results(output(3), 5), Ok(output(3)));
    assert_eq!(cap_results(output(3), usize::MAX), Ok(output(3)));
    assert_eq!(cap_results(output(0), 5), Err(SearchError::EmptyResult));
    assert_eq!(cap_results(output(3), 0), Err(SearchError::EmptyResult));
}

#[test]
fn what_a_parser_made_is_settled() {
    assert_eq!(settle_parsed(Ok(output(7)), 2), Ok(output(2)));
    assert_eq!(settle_parsed(Ok(output(0)), 2), Err(SearchError::EmptyResult));
    assert_eq!(
        settle_parsed(Err(SearchError::Response("bad".to_string())), 2),
        Err(SearchError::Response("bad".to_string()))
    );
}

fn declared(
    request_content_type: ContentType,
    method: HttpMethod,
    endpoint: &str,
    headers: Option<Vec<Header>>,
) -> SearchProviderConfig<GoogleParser> {
    SearchProviderConfig::new(
        "google".to_string(),
        5,
        1500,
        endpoint.to_string(),
        request_content_type,
        ContentType::Json,
        method,
        headers,
        GoogleParser,
    )
    .expect("the declaration is well formed")
}

#[test]
fn a_request_carries_what_the_provider_declares() {
    let headers = vec![
        Header { name: "x-api-key".to_string(), value: "SECRET-REDACTED".to_string() },
        Header { name: "x-region".to_string(), value: "eu".to_string() },
    ];
    let provider = declared(
        ContentType::Json,
        HttpMethod::Post,
        "http://localhost:3000/search",
        Some(headers.clone()),
    );
    let request = provider.request("{\"term\":\"Megami Tensei\"}");
    assert_eq!(
        request,
        SearchRequest {
            method: HttpMethod::Post,
            address: "http://localhost:3000/search".to_string(),
            content_type: Some(ContentType::Json),
            accept: ContentType::Json,
            headers,
            body: "{\"term\":\"Megami Tensei\"}".to_string(),
            timeout_ms: 1500,
        }
    );
}

#[test]
fn a_request_without_headers() {
    let request = google(5).request("");
    assert!(request.headers.is_empty());
    assert_eq!(request.body, "");
    assert_eq!(request.address, "http://localhost:3000/search");
    assert_eq!(request.timeout_ms, 1000);
    assert_eq!(request.method, HttpMethod::Post);
}

#[test]
fn a_get_carries_the_query_in_its_address() {
    let provider = declared(ContentType::Json, HttpMethod::Get, "http://localhost:3000/search", None);
    let request = provider.request("term=Megami+Tensei&engine=google");
    assert_eq!(
        request,
        SearchRequest {
            method: HttpMethod::Get,
            address: "http://localhost:3000/search?term=Megami+Tensei&engine=google".to_string(),
            content_type: None,
            accept: ContentType::Json,
            headers: Vec::new(),
            body: String::new(),
            timeout_ms: 1500,
        }
    );
    assert_eq!(provider.request("").address, "http://localhost:3000/search");
    let keyed = declared(ContentType::Json, HttpMethod::Get, "http://localhost:3000/search?key=1", None);
    assert_eq!(keyed.request("term=a").address, "http://localhost:3000/search?key=1&term=a");
}

#[test]
fn the_address_of_a_call() {
    assert_eq!(address(HttpMethod::Post, "http://h/s", "a=b"), "http://h/s");
    assert_eq!(address(HttpMethod::Post, "http://h/s", ""), "http://h/s");
    assert_eq!(address(HttpMethod::Get, "http://h/s", ""), "http://h/s");
    assert_eq!(address(HttpMethod::Get, "http://h/s", "a=b"), "http://h/s?a=b");
    assert_eq!(address(HttpMethod::Get, "http://h/s?x=1", "a=b"), "http://h/s?x=1&a=b");
    assert_eq!(address(HttpMethod::Get, "", "a=b"), "?a=b");
}

#[test]
fn a_character_is_found_in_a_text() {
    assert!(has_char("a?b", '?'));
    assert!(has_char("?", '?'));
    assert!(has_char("caf\u{e9}", '\u{e9}'));
    assert!(!has_char("", '?'));
    assert!(!has_char("abc", '?'));
}

#[test]
fn the_form_of_a_payload() {
    for declared_form in [ContentType::Json, ContentType::Form] {
        let get = declared(declared_form, HttpMethod::Get, "http://h/s", None);
        assert_eq!(get.payload_form(), ContentType::Form);
        let post = declared(declared_form, HttpMethod::Post, "http://h/s", None);
        assert_eq!(post.payload_form(), declared_form);
        assert_eq!(post.request("p").content_type, Some(declared_form));
    }
}
