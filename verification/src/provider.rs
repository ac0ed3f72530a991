//! The description of one external search backend.

use vstd::prelude::*;
use crate::error::{ConfigError, ConfigErrorView};
use crate::search::ResultParser;

verus! {

/// The form in which a request or a response carries its data.
#[derive(Clone, Copy, Debug, PartialEq, Eq, Structural)]
pub enum ContentType {
    Json,
    Form,
}

/// The verb of a search call.
#[derive(Clone, Copy, Debug, PartialEq, Eq, Structural)]
pub enum HttpMethod {
    Get,
    Post,
}

impl ContentType {
    /// The media type by which HTTP names this form.
    pub open spec fn media_type(self) -> Seq<char> {
        match self {
            ContentType::Json => "application/json"@,
            ContentType::Form => "application/x-www-form-urlencoded"@,
        }
    }

    /// The media type by which HTTP names this form.
    pub fn mime(self) -> (name: &'static str)
        ensures
            name@ == self.media_type(),
    {
        match self {
            ContentType::Json => "application/json",
            ContentType::Form => "application/x-www-form-urlencoded",
        }
    }
}

impl HttpMethod {
    /// The name of the verb as HTTP writes it.
    pub open spec fn verb(self) -> Seq<char> {
        match self {
            HttpMethod::Get => "GET"@,
            HttpMethod::Post => "POST"@,
        }
    }

    /// The name of the verb as HTTP writes it.
    pub fn name(self) -> (name: &'static str)
        ensures
            name@ == self.verb(),
    {
        match self {
            HttpMethod::Get => "GET",
            HttpMethod::Post => "POST",
        }
    }
}

/// One header that is sent with every call to a provider.
#[derive(Clone, Debug, PartialEq, Eq)]
pub struct Header {
    pub name: String,
    pub value: String,
}

/// The mathematical value of a [`Header`].
pub struct HeaderView {
    pub name: Seq<char>,
    pub value: Seq<char>,
}

impl View for Header {
    type V = HeaderView;

    open spec fn view(&self) -> HeaderView {
        HeaderView { name: self.name@, value: self.value@ }
    }
}

/// The values of a list of headers, in order.
pub open spec fn header_views(headers: Seq<Header>) -> Seq<HeaderView> {
    headers.map_values(|h: Header| h@)
}

/// Whether the header at `at` bears a name that an earlier header bears.
pub open spec fn repeats(headers: Seq<HeaderView>, at: int) -> bool {
    exists|earlier: int| 0 <= earlier < at && headers[earlier].name == headers[at].name
}

/// Whether the headers map each name to one value.
pub open spec fn distinct_names(headers: Seq<HeaderView>) -> bool {
    forall|at: int| 0 <= at < headers.len() ==> !repeats(headers, at)
}

/// Whether `at` is the first header that bears the name of an earlier one.
pub open spec fn is_first_repeat(headers: Seq<HeaderView>, at: int) -> bool {
    &&& 0 <= at < headers.len()
    &&& repeats(headers, at)
    &&& forall|before: int| 0 <= before < at ==> !repeats(headers, before)
}

/// The first header that bears the name of an earlier one, where the names
/// are not distinct.
pub open spec fn first_repeat(headers: Seq<HeaderView>) -> int {
    choose|at: int| is_first_repeat(headers, at)
}

/// What is wrong with the declaration of a provider, if anything is: a
/// missing name, else a missing endpoint, else a header name given twice.
pub open spec fn provider_fault(
    name: Seq<char>,
    endpoint: Seq<char>,
    headers: Seq<HeaderView>,
) -> Option<ConfigErrorView> {
    if name.len() == 0 {
        Some(ConfigErrorView::MissingName)
    } else if endpoint.len() == 0 {
        Some(ConfigErrorView::MissingEndpoint)
    } else if !distinct_names(headers) {
        Some(ConfigErrorView::DuplicateHeader(headers[first_repeat(headers)].name))
    } else {
        None
    }
}

/// The mathematical value of a provider's configuration, but for its parser.
pub struct ProviderView {
    pub name: Seq<char>,
    pub endpoint: Seq<char>,
    pub request_content_type: ContentType,
    pub response_content_type: ContentType,
    pub http_method: HttpMethod,
    pub max_results: usize,
    pub timeout_ms: u64,
    pub extra_headers: Seq<HeaderView>,
}

/// Whether a configuration names its provider and endpoint and gives every
/// header name once.
pub open spec fn well_formed(view: ProviderView) -> bool {
    provider_fault(view.name, view.endpoint, view.extra_headers) is None
}

/// One external search backend: where it is reached, how a call to it is
/// made, how many results are taken from it, and how its answer is read.
///
/// A configuration is made once and never changed. Every configuration is
/// well formed.
pub struct SearchProviderConfig<P: ResultParser> {
    name: String,
    endpoint: String,
    request_content_type: ContentType,
    response_content_type: ContentType,
    http_method: HttpMethod,
    max_results: usize,
    timeout_ms: u64,
    extra_headers: Vec<Header>,
    parser: P,
}

proof fn lemma_first_repeat_is(headers: Seq<HeaderView>, at: int)
    requires
        is_first_repeat(headers, at),
    ensures
        first_repeat(headers) == at,
        !distinct_names(headers),
{
    let chosen = first_repeat(headers);
    assert(is_first_repeat(headers, chosen));
    if chosen < at {
        assert(!repeats(headers, chosen));
    } else if at < chosen {
        assert(!repeats(headers, at));
    }
}

/// Looks for the first header whose name an earlier header bears.
pub fn find_repeated_header(headers: &Vec<Header>) -> (found: Option<usize>)
    ensures
        match found {
            Some(at) => is_first_repeat(header_views(headers@), at as int) && first_repeat(
                header_views(headers@),
            ) == at,
            None => distinct_names(header_views(headers@)),
        },
{
    let ghost views = header_views(headers@);
    let mut at: usize = 0;
    while at < headers.len()
        invariant
            at <= headers.len(),
            views == header_views(headers@),
            forall|before: int| 0 <= before < at ==> !repeats(views, before),
        decreases headers.len() - at,
    {
        let mut earlier: usize = 0;
        while earlier < at
            invariant
                earlier <= at < headers.len(),
                views == header_views(headers@),
                forall|before: int| 0 <= before < at ==> !repeats(views, before),
                forall|k: int| 0 <= k < earlier ==> views[k].name != views[at as int].name,
            decreases at - earlier,
        {
            if headers[earlier].name == headers[at].name {
                proof {
                    assert(views[earlier as int].name == views[at as int].name);
                    assert(repeats(views, at as int));
                    lemma_first_repeat_is(views, at as int);
                }
                return Some(at);
            }
            earlier = earlier + 1;
        }
        at = at + 1;
    }
    None
}

impl<P: ResultParser> SearchProviderConfig<P> {
    #[verifier::type_invariant]
    spec fn valid(self) -> bool {
        well_formed(self@)
    }

    /// The parser that reads this provider's answers.
    pub closed spec fn parser_of(&self) -> P {
        self.parser
    }

    /// Declares a provider. A provider must have a name and an endpoint,
    /// and no two of its headers may bear the same name.
    pub fn new(
        name: String,
        max_results: usize,
        timeout_ms: u64,
        endpoint: String,
        request_content_type: ContentType,
        response_content_type: ContentType,
        http_method: HttpMethod,
        extra_headers: Option<Vec<Header>>,
        parser: P,
    ) -> (made: Result<Self, ConfigError>)
        ensures
            match made {
                Ok(config) => {
                    &&& config@ == (ProviderView {
                        name: name@,
                        endpoint: endpoint@,
                        request_content_type,
                        response_content_type,
                        http_method,
                        max_results,
                        timeout_ms,
                        extra_headers: match extra_headers {
                            Some(headers) => header_views(headers@),
                            None => Seq::empty(),
                        },
                    })
                    &&& config.parser_of() == parser
                    &&& well_formed(config@)
                },
                Err(fault) => provider_fault(
                    name@,
                    endpoint@,
                    match extra_headers {
                        Some(headers) => header_views(headers@),
                        None => Seq::empty(),
                    },
                ) == Some(fault@),
            },
    {
        let headers = match extra_headers {
            Some(headers) => headers,
            None => Vec::new(),
        };
        proof {
            if extra_headers is None {
                assert(header_views(headers@) =~= Seq::empty());
            }
        }
        if name.as_str().is_empty() {
            return Err(ConfigError::MissingName);
        }
        if endpoint.as_str().is_empty() {
            return Err(ConfigError::MissingEndpoint);
        }
        match find_repeated_header(&headers) {
            Some(at) => Err(ConfigError::DuplicateHeader(headers[at].name.clone())),
            None => Ok(
                SearchProviderConfig {
                    name,
                    endpoint,
                    request_content_type,
                    response_content_type,
                    http_method,
                    max_results,
                    timeout_ms,
                    extra_headers: headers,
                    parser,
                },
            ),
        }
    }

    /// The name of the provider.
    pub fn name(&self) -> (name: &String)
        ensures
            name@ == self@.name,
    {
        &self.name
    }

    /// Where the provider is reached.
    pub fn endpoint(&self) -> (endpoint: &String)
        ensures
            endpoint@ == self@.endpoint,
    {
        &self.endpoint
    }

    /// The form in which the provider takes a query.
    pub fn request_content_type(&self) -> (content_type: ContentType)
        ensures
            content_type == self@.request_content_type,
    {
        self.request_content_type
    }

    /// The form in which the provider answers.
    pub fn response_content_type(&self) -> (content_type: ContentType)
        ensures
            content_type == self@.response_content_type,
    {
        self.response_content_type
    }

    /// The verb of a call to the provider.
    pub fn http_method(&self) -> (method: HttpMethod)
        ensures
            method == self@.http_method,
    {
        self.http_method
    }

    /// How many results are taken from one answer at most.
    pub fn max_results(&self) -> (max_results: usize)
        ensures
            max_results == self@.max_results,
    {
        self.max_results
    }

    /// How long a call may take, in milliseconds.
    pub fn timeout_ms(&self) -> (timeout_ms: u64)
        ensures
            timeout_ms == self@.timeout_ms,
    {
        self.timeout_ms
    }

    /// The headers, each name once.
    pub fn extra_headers(&self) -> (headers: &Vec<Header>)
        ensures
            header_views(headers@) == self@.extra_headers,
            distinct_names(header_views(headers@)),
    {
        proof {
            use_type_invariant(self);
        }
        &self.extra_headers
    }

    /// The parser that reads the provider's answers.
    pub fn parser(&self) -> (parser: &P)
        ensures
            *parser == self.parser_of(),
    {
        &self.parser
    }
}

impl<P: ResultParser> View for SearchProviderConfig<P> {
    type V = ProviderView;

    closed spec fn view(&self) -> ProviderView {
        ProviderView {
            name: self.name@,
            endpoint: self.endpoint@,
            request_content_type: self.request_content_type,
            response_content_type: self.response_content_type,
            http_method: self.http_method,
            max_results: self.max_results,
            timeout_ms: self.timeout_ms,
            extra_headers: header_views(self.extra_headers@),
        }
    }
}

} // verus!
