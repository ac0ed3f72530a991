use rag_search::error::ConfigError;
use rag_search::provider::{
    find_repeated_header, ContentType, Header, HttpMethod, SearchProviderConfig,
};
use rag_search::search::GoogleParser;

fn header(name: &str, value: &str) -> Header {
    Header { name: name.to_string(), value: value.to_string() }
}

fn declare(
    name: &str,
    endpoint: &str,
    headers: Option<Vec<Header>>,
) -> Result<SearchProviderConfig<GoogleParser>, ConfigError> {
    SearchProviderConfig::new(
        name.to_string(),
        5,
        1000,
        endpoint.to_string(),
        ContentType::Json,
        ContentType::Form,
        HttpMethod::Get,
        headers,
        GoogleParser,
    )
}

#[test]
fn a_provider_keeps_what_it_was_declared_with() {
    let headers = vec![header("a", "1"), header("b", "2")];
    let provider = declare("google", "http://localhost:3000/search", Some(headers.clone()))
        .ok()
        .expect("the declaration is well formed");
    assert_eq!(provider.name(), "google");
    assert_eq!(provider.endpoint(), "http://localhost:3000/search");
    assert_eq!(provider.max_results(), 5);
    assert_eq!(provider.timeout_ms(), 1000);
    assert_eq!(provider.request_content_type(), ContentType::Json);
    assert_eq!(provider.response_content_type(), ContentType::Form);
    assert_eq!(provider.http_method(), HttpMethod::Get);
    assert_eq!(provider.extra_headers(), &headers);
    assert_eq!(provider.parser(), &GoogleParser);
}

#[test]
fn a_provider_without_headers_has_none() {
    let provider = declare("google", "http://localhost:3000/search", None)
        .ok()
        .expect("the declaration is well formed");
    assert!(provider.extra_headers().is_empty());
}

#[test]
fn a_provider_needs_a_name() {
    assert_eq!(declare("", "http://localhost:3000", None).err(), Some(ConfigError::MissingName));
    assert_eq!(declare("", "", None).err(), Some(ConfigError::MissingName));
}

#[test]
fn a_provider_needs_an_endpoint() {
    assert_eq!(declare("google", "", None).err(), Some(ConfigError::MissingEndpoint));
    assert_eq!(
        declare("google", "", Some(vec![header("a", "1"), header("a", "2")])).err(),
        Some(ConfigError::MissingEndpoint)
    );
}

#[test]
fn a_provider_gives_each_header_name_once() {
    let twice = vec![header("a", "1"), header("b", "2"), header("c", "3"), header("b", "4")];
    assert_eq!(
        declare("google", "http://localhost:3000", Some(twice)).err(),
        Some(ConfigError::DuplicateHeader("b".to_string()))
    );
    let two_pairs = vec![header("a", "1"), header("b", "2"), header("b", "3"), header("a", "4")];
    assert_eq!(
        declare("google", "http://localhost:3000", Some(two_pairs)).err(),
        Some(ConfigError::DuplicateHeader("b".to_string()))
    );
}

#[test]
fn the_first_repeated_header_is_found() {
    assert_eq!(find_repeated_header(&Vec::new()), None);
    assert_eq!(find_repeated_header(&vec![header("a", "1")]), None);
    assert_eq!(find_repeated_header(&vec![header("a", "1"), header("A", "1")]), None);
    assert_eq!(find_repeated_header(&vec![header("a", "1"), header("a", "1")]), Some(1));
    assert_eq!(
        find_repeated_header(&vec![header("a", "1"), header("b", "1"), header("a", "2"), header("b", "2")]),
        Some(2)
    );
}
