//! The common vocabulary of all provider clients: requests, replies,
//! results, errors, and the capability that every client offers.
//!
//! A client never touches the network. It says which request to send
//! (`begin_search`) and what a reply means (`finish_search`); whoever owns
//! the transport performs the exchange in between.

use crate::encryption::{EncryptError, EnvelopeError};
use vstd::prelude::*;
use vstd::string::*;

verus! {

/// The normalized answer of a provider.
#[derive(Debug, Clone, PartialEq, Eq)]
pub struct SearchResult {
    /// The answer's text.
    pub text: String,
    /// The provider that answered, as the backend names it.
    pub provider: String,
    /// The model that answered, where the backend names it.
    pub model: Option<String>,
    /// The conversation that the answer belongs to.
    pub conversation_id: Option<String>,
    /// The relay's identifier of the request, for cancellation.
    pub request_id: Option<String>,
}

/// What a `SearchResult` holds.
pub struct SearchResultView {
    pub text: Seq<char>,
    pub provider: Seq<char>,
    pub model: Option<Seq<char>>,
    pub conversation_id: Option<Seq<char>>,
    pub request_id: Option<Seq<char>>,
}

/// The characters of an optional string.
pub open spec fn option_text(value: Option<String>) -> Option<Seq<char>> {
    match value {
        Some(s) => Some(s@),
        None => None,
    }
}

impl View for SearchResult {
    type V = SearchResultView;

    open spec fn view(&self) -> SearchResultView {
        SearchResultView {
            text: self.text@,
            provider: self.provider@,
            model: option_text(self.model),
            conversation_id: option_text(self.conversation_id),
            request_id: option_text(self.request_id),
        }
    }
}

/// Why a search gave no result.
#[derive(Debug, Clone, PartialEq, Eq)]
pub enum SearchError {
    /// A required key or URL is not configured; nothing was sent.
    MissingCredential,
    /// The backend answered with a status outside 200..=299.
    UpstreamError { status: u16, body: String },
    /// The relay's encrypted answer could not be opened.
    DecryptError(EnvelopeError),
    /// The request could not be encrypted.
    EncryptError(EncryptError),
    /// The exchange failed below HTTP: no reply arrived.
    TransportError(String),
    /// The reply breaks the protocol.
    MalformedResponse,
}

/// What a `SearchError` holds.
pub enum SearchErrorView {
    MissingCredential,
    UpstreamError { status: u16, body: Seq<char> },
    DecryptError(EnvelopeError),
    EncryptError(EncryptError),
    TransportError(Seq<char>),
    MalformedResponse,
}

impl View for SearchError {
    type V = SearchErrorView;

    open spec fn view(&self) -> SearchErrorView {
        match *self {
            SearchError::MissingCredential => SearchErrorView::MissingCredential,
            SearchError::UpstreamError { status, body } => SearchErrorView::UpstreamError {
                status,
                body: body@,
            },
            SearchError::DecryptError(e) => SearchErrorView::DecryptError(e),
            SearchError::EncryptError(e) => SearchErrorView::EncryptError(e),
            SearchError::TransportError(message) => SearchErrorView::TransportError(message@),
            SearchError::MalformedResponse => SearchErrorView::MalformedResponse,
        }
    }
}

/// One header of a request.
#[derive(Debug, Clone, PartialEq, Eq)]
pub struct Header {
    pub name: String,
    pub value: String,
}

/// A POST request with a JSON body.
#[derive(Debug, Clone, PartialEq, Eq)]
pub struct HttpRequest {
    pub url: String,
    pub headers: Vec<Header>,
    pub body: String,
}

/// The headers as pairs of name and value.
pub open spec fn header_pairs(headers: Seq<Header>) -> Seq<(Seq<char>, Seq<char>)> {
    Seq::new(headers.len(), |i: int| (headers[i].name@, headers[i].value@))
}

/// What an `HttpRequest` holds: headers are pairs of name and value.
pub struct HttpRequestView {
    pub url: Seq<char>,
    pub headers: Seq<(Seq<char>, Seq<char>)>,
    pub body: Seq<char>,
}

impl View for HttpRequest {
    type V = HttpRequestView;

    open spec fn view(&self) -> HttpRequestView {
        HttpRequestView {
            url: self.url@,
            headers: header_pairs(self.headers@),
            body: self.body@,
        }
    }
}

/// The reply to a request: its status code and its body as text.
#[derive(Debug, Clone, PartialEq, Eq)]
pub struct HttpReply {
    pub status: u16,
    pub body: String,
}

/// What an `HttpReply` holds.
pub struct HttpReplyView {
    pub status: u16,
    pub body: Seq<char>,
}

impl View for HttpReply {
    type V = HttpReplyView;

    open spec fn view(&self) -> HttpReplyView {
        HttpReplyView { status: self.status, body: self.body@ }
    }
}

/// How an exchange with a backend ended.
#[derive(Debug, Clone, PartialEq, Eq)]
pub enum Exchange {
    /// A reply arrived.
    Replied(HttpReply),
    /// No reply arrived; the text says why.
    Failed(String),
}

/// What an outcome of a search holds.
pub open spec fn outcome_view(outcome: Result<SearchResult, SearchError>) -> Result<
    SearchResultView,
    SearchErrorView,
> {
    match outcome {
        Ok(result) => Ok(result@),
        Err(error) => Err(error@),
    }
}

/// What a prepared request, or the refusal to prepare one, holds.
pub open spec fn request_view(request: Result<HttpRequest, SearchError>) -> Result<
    HttpRequestView,
    SearchErrorView,
> {
    match request {
        Ok(r) => Ok(r@),
        Err(error) => Err(error@),
    }
}

/// Whether `status` reports success.
pub open spec fn is_success(status: u16) -> bool {
    200 <= status <= 299
}

/// Whether `status` reports success.
pub fn status_is_success(status: u16) -> (ok: bool)
    ensures
        ok == is_success(status),
{
    200 <= status && status <= 299
}

/// A header with the given name and value.
pub fn header(name: &str, value: &str) -> (h: Header)
    ensures
        h.name@ == name@,
        h.value@ == value@,
{
    Header { name: name.to_string(), value: value.to_string() }
}

/// The error for a reply whose status reports no success.
pub fn upstream_error(reply: &HttpReply) -> (error: SearchError)
    ensures
        error@ == (SearchErrorView::UpstreamError { status: reply.status, body: reply.body@ }),
{
    SearchError::UpstreamError { status: reply.status, body: reply.body.clone() }
}

/// One provider, seen as a search capability.
pub trait ApiClient {
    /// Whether `request` is an answer that `begin_search` may give for
    /// `query`: the request to send, or the reason why none is sent.
    spec fn prepares(
        &self,
        query: Seq<char>,
        request: Result<HttpRequestView, SearchErrorView>,
    ) -> bool;

    /// What a reply to a search request means.
    spec fn outcome(&self, reply: HttpReplyView) -> Result<SearchResultView, SearchErrorView>;

    /// Prepares the one request of a search. An error means that nothing
    /// is to be sent.
    fn begin_search(&self, query: &str) -> (request: Result<HttpRequest, SearchError>)
        ensures
            self.prepares(query@, request_view(request)),
    ;

    /// Turns the reply to a search request into the search's outcome.
    fn finish_search(&self, reply: &HttpReply) -> (result: Result<SearchResult, SearchError>)
        ensures
            outcome_view(result) == self.outcome(reply@),
    ;
}

/// What a finished exchange means to `client`.
pub open spec fn concluded<C: ApiClient>(client: &C, exchange: Exchange) -> Result<
    SearchResultView,
    SearchErrorView,
> {
    match exchange {
        Exchange::Replied(reply) => client.outcome(reply@),
        Exchange::Failed(message) => Err(SearchErrorView::TransportError(message@)),
    }
}

/// Turns a finished exchange into the search's outcome: a transport
/// failure is reported as such, a reply is interpreted by the client.
pub fn conclude<C: ApiClient>(client: &C, exchange: &Exchange) -> (result: Result<
    SearchResult,
    SearchError,
>)
    ensures
        outcome_view(result) == concluded(client, *exchange),
{
    match exchange {
        Exchange::Replied(reply) => client.finish_search(reply),
        Exchange::Failed(message) => Err(SearchError::TransportError(message.clone())),
    }
}

} // verus!
