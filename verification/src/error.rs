//! The failures that the library reports.

use vstd::prelude::*;

verus! {

/// Why a search call yielded no output. Every one of them is recoverable: a
/// caller goes on without web context.
#[derive(Clone, Debug, PartialEq, Eq)]
pub enum SearchError {
    /// No response came within the time that the provider is given.
    Timeout,
    /// The connection could not be made or broke.
    Transport(String),
    /// The provider answered with a failure status or with a body that is
    /// not what was expected.
    Response(String),
    /// The provider answered with no result at all.
    EmptyResult,
}

/// The mathematical value of a [`SearchError`].
pub enum SearchErrorView {
    Timeout,
    Transport(Seq<char>),
    Response(Seq<char>),
    EmptyResult,
}

impl View for SearchError {
    type V = SearchErrorView;

    open spec fn view(&self) -> SearchErrorView {
        match self {
            SearchError::Timeout => SearchErrorView::Timeout,
            SearchError::Transport(reason) => SearchErrorView::Transport(reason@),
            SearchError::Response(reason) => SearchErrorView::Response(reason@),
            SearchError::EmptyResult => SearchErrorView::EmptyResult,
        }
    }
}

/// A fault in the configuration that a server is started with.
#[derive(Clone, Debug, PartialEq, Eq)]
pub enum ConfigError {
    /// The arguments do not fit together; the text says which.
    Arguments(String),
    /// A provider was declared without a name.
    MissingName,
    /// A provider was declared without an endpoint.
    MissingEndpoint,
    /// A provider was declared with two headers of one name, given here.
    DuplicateHeader(String),
}

/// The mathematical value of a [`ConfigError`].
pub enum ConfigErrorView {
    Arguments(Seq<char>),
    MissingName,
    MissingEndpoint,
    DuplicateHeader(Seq<char>),
}

impl View for ConfigError {
    type V = ConfigErrorView;

    open spec fn view(&self) -> ConfigErrorView {
        match self {
            ConfigError::Arguments(reason) => ConfigErrorView::Arguments(reason@),
            ConfigError::MissingName => ConfigErrorView::MissingName,
            ConfigError::MissingEndpoint => ConfigErrorView::MissingEndpoint,
            ConfigError::DuplicateHeader(name) => ConfigErrorView::DuplicateHeader(name@),
        }
    }
}

/// A failure of the embedding or of the chat model.
#[derive(Clone, Copy, Debug, PartialEq, Eq, Structural)]
pub enum ModelError {
    /// The model could not be run on the input.
    Inference,
}

/// A failure of the vector store.
#[derive(Clone, Copy, Debug, PartialEq, Eq, Structural)]
pub enum StoreError {
    /// The store could not be reached at all.
    Unreachable,
    /// The store was reached and refused the one request.
    Rejected,
}

/// Why an ingestion was given up.
#[derive(Clone, Copy, Debug, PartialEq, Eq, Structural)]
pub enum IndexError {
    /// The vector store could not be reached.
    StoreUnreachable,
}

} // verus!
