//! One search call against a provider: what is sent, and what is made of
//! the answer.
//!
//! The call itself is the host's: the library prepares the request, the
//! host sends it within the time that the request allows, and the library
//! settles what came back.

use vstd::prelude::*;
use vstd::std_specs::iter::IteratorSpec;
use vstd::string::StringExecFns;
use crate::error::{SearchError, SearchErrorView};
use crate::json::{decode, json_document};
use crate::provider::{
    distinct_names, header_views, ContentType, Header, HeaderView, HttpMethod, SearchProviderConfig,
};
use crate::search::{parse_view, ResultParser, SearchOutput, SearchResultView};

verus! {

/// A search call that is ready to be sent.
#[derive(Clone, Debug, PartialEq, Eq)]
pub struct SearchRequest {
    pub method: HttpMethod,
    /// Where the request goes: the endpoint, with the query where the verb
    /// is `Get`.
    pub address: String,
    /// The form of the body, where the request has one.
    pub content_type: Option<ContentType>,
    /// The form in which the answer is expected.
    pub accept: ContentType,
    pub headers: Vec<Header>,
    /// The body; empty where the verb is `Get`.
    pub body: String,
    /// How long the call may take, in milliseconds.
    pub timeout_ms: u64,
}

/// The mathematical value of a [`SearchRequest`].
pub struct SearchRequestView {
    pub method: HttpMethod,
    pub address: Seq<char>,
    pub content_type: Option<ContentType>,
    pub accept: ContentType,
    pub headers: Seq<HeaderView>,
    pub body: Seq<char>,
    pub timeout_ms: u64,
}

/// The address of a call: with `Post`, and for an empty query, the
/// endpoint; with `Get` the endpoint and the query, joined by `?`, or by
/// `&` where the endpoint has a query of its own.
pub open spec fn address_of(method: HttpMethod, endpoint: Seq<char>, payload: Seq<char>) -> Seq<
    char,
> {
    if method == HttpMethod::Get && payload.len() > 0 {
        endpoint.push(
            if endpoint.contains('?') {
                '&'
            } else {
                '?'
            },
        ) + payload
    } else {
        endpoint
    }
}

/// The body of a call: the payload with `Post`, nothing with `Get`.
pub open spec fn body_of(method: HttpMethod, payload: Seq<char>) -> Seq<char> {
    match method {
        HttpMethod::Post => payload,
        HttpMethod::Get => Seq::empty(),
    }
}

/// The form that a call declares for its body: with `Post` the form that
/// the provider declares for its requests, with `Get` none.
pub open spec fn body_form_of(method: HttpMethod, declared: ContentType) -> Option<ContentType> {
    match method {
        HttpMethod::Post => Some(declared),
        HttpMethod::Get => None,
    }
}

impl View for SearchRequest {
    type V = SearchRequestView;

    open spec fn view(&self) -> SearchRequestView {
        SearchRequestView {
            method: self.method,
            address: self.address@,
            content_type: self.content_type,
            accept: self.accept,
            headers: header_views(self.headers@),
            body: self.body@,
            timeout_ms: self.timeout_ms,
        }
    }
}

/// How a search call ended.
#[derive(Clone, Debug, PartialEq, Eq)]
pub enum HttpOutcome {
    /// No response came within the time allowed.
    TimedOut,
    /// The call could not be made; the text says why.
    Failed(String),
    /// The provider answered.
    Answered { status: u16, body: String },
}

/// The mathematical value of an [`HttpOutcome`].
pub enum HttpOutcomeView {
    TimedOut,
    Failed(Seq<char>),
    Answered { status: u16, body: Seq<char> },
}

impl View for HttpOutcome {
    type V = HttpOutcomeView;

    open spec fn view(&self) -> HttpOutcomeView {
        match self {
            HttpOutcome::TimedOut => HttpOutcomeView::TimedOut,
            HttpOutcome::Failed(reason) => HttpOutcomeView::Failed(reason@),
            HttpOutcome::Answered { status, body } => HttpOutcomeView::Answered {
                status: *status,
                body: body@,
            },
        }
    }
}

/// The form in which a query is written for a provider: as the parameters
/// of the address where the verb is `Get`, and in the form that the
/// provider declares for its requests where it is `Post`.
pub open spec fn payload_form_of(method: HttpMethod, declared: ContentType) -> ContentType {
    match method {
        HttpMethod::Get => ContentType::Form,
        HttpMethod::Post => declared,
    }
}

/// Whether a status reports success.
pub open spec fn is_success(status: u16) -> bool {
    200 <= status <= 299
}

/// The first `max_results` of `results`; no result at all is reported as
/// `EmptyResult`.
pub open spec fn capped(results: Seq<SearchResultView>, max_results: usize) -> Result<
    Seq<SearchResultView>,
    SearchErrorView,
> {
    if results.len() == 0 || max_results == 0 {
        Err(SearchErrorView::EmptyResult)
    } else if max_results < results.len() {
        Ok(results.take(max_results as int))
    } else {
        Ok(results)
    }
}

/// What is made of a decoded response: the parser's results within the
/// cap, or the parser's error.
pub open spec fn settled_document<P: ResultParser>(
    parser: P,
    max_results: usize,
    raw: serde_json::Value,
) -> Result<Seq<SearchResultView>, SearchErrorView> {
    match parser.parsed(raw) {
        Ok(results) => capped(results, max_results),
        Err(error) => Err(error),
    }
}

/// What is made of the body of a successful response.
pub open spec fn settled_body<P: ResultParser>(
    parser: P,
    max_results: usize,
    response_content_type: ContentType,
    body: Seq<char>,
) -> Result<Seq<SearchResultView>, SearchErrorView> {
    if response_content_type != ContentType::Json {
        Err(SearchErrorView::Response("The response is not declared as JSON"@))
    } else {
        match json_document(body) {
            Some(raw) => settled_document(parser, max_results, raw),
            None => Err(SearchErrorView::Response("The response body is not valid JSON"@)),
        }
    }
}

/// What is made of the end of a search call.
pub open spec fn settled<P: ResultParser>(
    parser: P,
    max_results: usize,
    response_content_type: ContentType,
    outcome: HttpOutcomeView,
) -> Result<Seq<SearchResultView>, SearchErrorView> {
    match outcome {
        HttpOutcomeView::TimedOut => Err(SearchErrorView::Timeout),
        HttpOutcomeView::Failed(reason) => Err(SearchErrorView::Transport(reason)),
        HttpOutcomeView::Answered { status, body } => {
            if !is_success(status) {
                Err(SearchErrorView::Response("The provider answered with a failure status"@))
            } else {
                settled_body(parser, max_results, response_content_type, body)
            }
        },
    }
}

/// Whether `c` occurs in `text`.
pub fn has_char(text: &str, c: char) -> (found: bool)
    ensures
        found == text@.contains(c),
{
    let ghost mut seen: Seq<char> = Seq::empty();
    let mut rest = text.chars();
    proof {
        assert(seen + rest.remaining() =~= text@);
    }
    loop
        invariant
            rest.obeys_prophetic_iter_laws(),
            rest.decrease() is Some,
            seen + rest.remaining() == text@,
            !seen.contains(c),
        ensures
            seen == text@,
            !text@.contains(c),
        decreases rest.decrease()->0,
    {
        let next = rest.next();
        match next {
            Some(other) => {
                proof {
                    assert(seen.push(other) + rest.remaining() =~= text@);
                }
                if other == c {
                    proof {
                        assert(text@[seen.len() as int] == c);
                    }
                    return true;
                }
                proof {
                    let longer = seen.push(other);
                    assert forall|i: int| 0 <= i < longer.len() implies longer[i] != c by {
                        if i < seen.len() {
                            assert(seen[i] == longer[i]);
                            assert(seen.contains(seen[i]));
                        }
                    }
                    seen = longer;
                }
            },
            None => {
                proof {
                    assert(seen + rest.remaining() =~= seen);
                }
                break ;
            },
        }
    }
    false
}

/// The address to which a call with the query `payload` goes.
pub fn address(method: HttpMethod, endpoint: &str, payload: &str) -> (address: String)
    ensures
        address@ == address_of(method, endpoint@, payload@),
{
    let mut address = endpoint.to_string();
    match method {
        HttpMethod::Post => {},
        HttpMethod::Get => {
            if !payload.is_empty() {
                let joint = if has_char(endpoint, '?') {
                    '&'
                } else {
                    '?'
                };
                address.push(joint);
                address.append(payload);
            }
        },
    }
    address
}

/// Keeps the first `max_results` results. An output without results is no
/// output: it is reported as `SearchError::EmptyResult`.
pub fn cap_results(output: SearchOutput, max_results: usize) -> (kept: Result<
    SearchOutput,
    SearchError,
>)
    ensures
        parse_view(kept) == capped(output@, max_results),
        kept matches Ok(within) ==> 1 <= within.results.len() <= max_results,
{
    let mut results = output.results;
    if results.len() == 0 || max_results == 0 {
        return Err(SearchError::EmptyResult);
    }
    let ghost all = results@;
    results.truncate(max_results);
    let kept = SearchOutput { results };
    proof {
        if max_results < all.len() {
            assert(kept@ =~= output@.take(max_results as int));
        } else {
            assert(kept@ =~= output@);
        }
    }
    Ok(kept)
}

/// Settles what a parser made of a response.
pub fn settle_parsed(parsed: Result<SearchOutput, SearchError>, max_results: usize) -> (outcome:
    Result<SearchOutput, SearchError>)
    ensures
        parse_view(outcome) == match parse_view(parsed) {
            Ok(results) => capped(results, max_results),
            Err(error) => Err(error),
        },
        outcome matches Ok(within) ==> 1 <= within.results.len() <= max_results,
{
    match parsed {
        Ok(output) => cap_results(output, max_results),
        Err(error) => Err(error),
    }
}

impl<P: ResultParser> SearchProviderConfig<P> {
    /// The form in which a query is to be written for this provider.
    pub fn payload_form(&self) -> (form: ContentType)
        ensures
            form == payload_form_of(self@.http_method, self@.request_content_type),
    {
        match self.http_method() {
            HttpMethod::Get => ContentType::Form,
            HttpMethod::Post => self.request_content_type(),
        }
    }

    /// Prepares the call that carries `payload` to this provider. The
    /// payload is the query, written in the form that `payload_form` names:
    /// it becomes the body of a `Post` and the query of a `Get`.
    pub fn request(&self, payload: &str) -> (request: SearchRequest)
        ensures
            request@ == (SearchRequestView {
                method: self@.http_method,
                address: address_of(self@.http_method, self@.endpoint, payload@),
                content_type: body_form_of(self@.http_method, self@.request_content_type),
                accept: self@.response_content_type,
                headers: self@.extra_headers,
                body: body_of(self@.http_method, payload@),
                timeout_ms: self@.timeout_ms,
            }),
            distinct_names(request@.headers),
    {
        let declared = self.extra_headers();
        let mut headers: Vec<Header> = Vec::new();
        let mut i: usize = 0;
        while i < declared.len()
            invariant
                i <= declared.len(),
                header_views(headers@) == header_views(declared@).take(i as int),
            decreases declared.len() - i,
        {
            let ghost before = header_views(headers@);
            let header = Header {
                name: declared[i].name.clone(),
                value: declared[i].value.clone(),
            };
            headers.push(header);
            proof {
                assert(header_views(headers@) =~= before.push(declared[i as int]@));
                assert(header_views(declared@).take(i + 1) =~= header_views(declared@).take(
                    i as int,
                ).push(declared[i as int]@));
            }
            i = i + 1;
        }
        proof {
            assert(header_views(declared@).take(i as int) =~= header_views(declared@));
        }
        let method = self.http_method();
        SearchRequest {
            method,
            address: address(method, self.endpoint().as_str(), payload),
            content_type: match method {
                HttpMethod::Post => Some(self.request_content_type()),
                HttpMethod::Get => None,
            },
            accept: self.response_content_type(),
            headers,
            body: match method {
                HttpMethod::Post => payload.to_string(),
                HttpMethod::Get => String::new(),
            },
            timeout_ms: self.timeout_ms(),
        }
    }

    /// Reads the results from a decoded response and applies the cap.
    pub fn settle_document(&self, raw: &serde_json::Value) -> (outcome: Result<
        SearchOutput,
        SearchError,
    >)
        ensures
            parse_view(outcome) == settled_document(self.parser_of(), self@.max_results, *raw),
            outcome matches Ok(within) ==> 1 <= within.results.len() <= self@.max_results,
    {
        settle_parsed(self.parser().parse(raw), self.max_results())
    }

    /// Settles a search call: a call that timed out or failed is reported
    /// as such, an answer with a failure status or with a body that cannot
    /// be read as `SearchError::Response`, and an answer without results as
    /// `SearchError::EmptyResult`. Otherwise the output holds the results
    /// that the parser read, in the provider's order, up to the cap.
    pub fn settle(&self, outcome: HttpOutcome) -> (output: Result<SearchOutput, SearchError>)
        ensures
            parse_view(output) == settled(
                self.parser_of(),
                self@.max_results,
                self@.response_content_type,
                outcome@,
            ),
            output matches Ok(within) ==> 1 <= within.results.len() <= self@.max_results,
            outcome is TimedOut ==> output matches Err(SearchError::Timeout),
            outcome is Failed ==> output matches Err(SearchError::Transport(_)),
            outcome matches HttpOutcome::Answered { status, .. } && !is_success(status)
                ==> output matches Err(SearchError::Response(_)),
    {
        match outcome {
            HttpOutcome::TimedOut => Err(SearchError::Timeout),
            HttpOutcome::Failed(reason) => Err(SearchError::Transport(reason)),
            HttpOutcome::Answered { status, body } => {
                if status < 200 || status > 299 {
                    return Err(
                        SearchError::Response(
                            "The provider answered with a failure status".to_string(),
                        ),
                    );
                }
                match self.response_content_type() {
                    ContentType::Json => {},
                    ContentType::Form => {
                        return Err(
                            SearchError::Response(
                                "The response is not declared as JSON".to_string(),
                            ),
                        );
                    },
                }
                match decode(body.as_str()) {
                    Ok(raw) => self.settle_document(&raw),
                    Err(_) => Err(
                        SearchError::Response("The response body is not valid JSON".to_string()),
                    ),
                }
            },
        }
    }
}

} // verus!
