//! Clients that talk to a cloud provider directly.
//!
//! Both put one chat message to a configured model and read the first answer
//! out of the provider's JSON reply. A reply without an answer at the
//! expected place yields a placeholder text, not an error.

use crate::api::{
    header, is_success, option_text, status_is_success, upstream_error, ApiClient, Header,
    HttpReply, HttpReplyView, HttpRequest, HttpRequestView, SearchError, SearchErrorView,
    SearchResult, SearchResultView,
};
use crate::json::{
    first_of_member, json_member, json_parses, json_quoted, member, parses, quoted,
    read_first_of_member, read_text_member, text_member,
};
use crate::text::{append_str, chars_of, string_of};
use vstd::prelude::*;
use vstd::string::*;
use vstd::utf8::encode_utf8;

verus! {

/// The text that stands for an answer that the reply does not hold.
pub open spec fn placeholder_text() -> Seq<char> {
    "No response text found"@
}

/// The result of a direct provider: the answer, or the placeholder.
pub open spec fn direct_result_spec(
    answer: Option<Seq<char>>,
    provider: Seq<char>,
    model: Seq<char>,
) -> SearchResultView {
    SearchResultView {
        text: match answer {
            Some(text) => text,
            None => placeholder_text(),
        },
        provider,
        model: Some(model),
        conversation_id: None,
        request_id: None,
    }
}

/// What a reply means to a direct client, given the answer found in it.
pub open spec fn direct_outcome(
    reply: HttpReplyView,
    answer: Option<Seq<char>>,
    provider: Seq<char>,
    model: Seq<char>,
) -> Result<SearchResultView, SearchErrorView> {
    if !is_success(reply.status) {
        Err(SearchErrorView::UpstreamError { status: reply.status, body: reply.body })
    } else if !json_parses(encode_utf8(reply.body)) {
        Err(SearchErrorView::MalformedResponse)
    } else {
        Ok(direct_result_spec(answer, provider, model))
    }
}

/// Builds the result of a direct provider from the answer found in its reply.
pub fn direct_result(answer: Option<String>, provider: &str, model: &str) -> (result: SearchResult)
    ensures
        result@ == direct_result_spec(option_text(answer), provider@, model@),
{
    let text = match answer {
        Some(text) => text,
        None => "No response text found".to_string(),
    };
    SearchResult {
        text,
        provider: provider.to_string(),
        model: Some(model.to_string()),
        conversation_id: None,
        request_id: None,
    }
}

/// The answer in an Anthropic reply: `content[0].text`.
pub open spec fn anthropic_answer(doc: Seq<u8>) -> Option<Seq<char>> {
    match first_of_member(doc, "content"@) {
        Some(first) => text_member(first, "text"@),
        None => None,
    }
}

/// The answer in an OpenAI reply: `choices[0].message.content`.
pub open spec fn openai_answer(doc: Seq<u8>) -> Option<Seq<char>> {
    match first_of_member(doc, "choices"@) {
        Some(first) => match json_member(first, "message"@) {
            Some(message) => text_member(message, "content"@),
            None => None,
        },
        None => None,
    }
}

/// The body of an Anthropic request that puts `query` to `model`.
pub open spec fn anthropic_body(model: Seq<char>, query: Seq<char>) -> Seq<char> {
    "{\"max_tokens\":1024,\"messages\":[{\"content\":"@ + json_quoted(query)
        + ",\"role\":\"user\"}],\"model\":"@ + json_quoted(model) + "}"@
}

/// The body of an OpenAI request that puts `query` to `model`.
pub open spec fn openai_body(model: Seq<char>, query: Seq<char>) -> Seq<char> {
    "{\"messages\":[{\"content\":"@ + json_quoted(query) + ",\"role\":\"user\"}],\"model\":"@
        + json_quoted(model) + "}"@
}

/// The request that an Anthropic client with key `api_key` sends to put
/// `query` to `model`.
pub open spec fn anthropic_request(
    api_key: Seq<char>,
    model: Seq<char>,
    query: Seq<char>,
) -> HttpRequestView {
    HttpRequestView {
        url: "https://api.anthropic.com/v1/messages"@,
        headers: seq![
            ("x-api-key"@, api_key),
            ("anthropic-version"@, "2023-06-01"@),
            ("content-type"@, "application/json"@),
        ],
        body: anthropic_body(model, query),
    }
}

/// The request that an OpenAI client with key `api_key` sends to put
/// `query` to `model`.
pub open spec fn openai_request(
    api_key: Seq<char>,
    model: Seq<char>,
    query: Seq<char>,
) -> HttpRequestView {
    HttpRequestView {
        url: "https://api.openai.com/v1/chat/completions"@,
        headers: seq![
            ("Authorization"@, "Bearer "@ + api_key),
            ("Content-Type"@, "application/json"@),
        ],
        body: openai_body(model, query),
    }
}

/// A client of Anthropic's messages API.
pub struct AnthropicClient {
    api_key: String,
    model: String,
}

impl AnthropicClient {
    /// The client's API key.
    pub closed spec fn api_key(&self) -> Seq<char> {
        self.api_key@
    }

    /// The model that the client puts its queries to.
    pub closed spec fn model(&self) -> Seq<char> {
        self.model@
    }

    /// A client that authenticates with `api_key` and puts its queries to `model`.
    pub fn new(api_key: String, model: String) -> (client: Self)
        ensures
            client.api_key() == api_key@,
            client.model() == model@,
    {
        AnthropicClient { api_key, model }
    }
}

impl ApiClient for AnthropicClient {
    open spec fn prepares(
        &self,
        query: Seq<char>,
        request: Result<HttpRequestView, SearchErrorView>,
    ) -> bool {
        if self.api_key().len() == 0 {
            request == Err::<HttpRequestView, SearchErrorView>(SearchErrorView::MissingCredential)
        } else {
            request == Ok::<HttpRequestView, SearchErrorView>(
                anthropic_request(self.api_key(), self.model(), query),
            )
        }
    }

    open spec fn outcome(&self, reply: HttpReplyView) -> Result<SearchResultView, SearchErrorView> {
        direct_outcome(
            reply,
            anthropic_answer(encode_utf8(reply.body)),
            "Anthropic"@,
            self.model(),
        )
    }

    fn begin_search(&self, query: &str) -> (request: Result<HttpRequest, SearchError>) {
        if self.api_key.as_str().is_empty() {
            return Err(SearchError::MissingCredential);
        }
        let mut headers: Vec<Header> = Vec::new();
        headers.push(header("x-api-key", self.api_key.as_str()));
        headers.push(header("anthropic-version", "2023-06-01"));
        headers.push(header("content-type", "application/json"));
        let mut body = chars_of("{\"max_tokens\":1024,\"messages\":[{\"content\":");
        append_str(&mut body, quoted(query).as_str());
        append_str(&mut body, ",\"role\":\"user\"}],\"model\":");
        append_str(&mut body, quoted(self.model.as_str()).as_str());
        append_str(&mut body, "}");
        let request = HttpRequest {
            url: "https://api.anthropic.com/v1/messages".to_string(),
            headers,
            body: string_of(&body),
        };
        assert(request@.headers =~= anthropic_request(
            self.api_key(),
            self.model(),
            query@,
        ).headers);
        Ok(request)
    }

    fn finish_search(&self, reply: &HttpReply) -> (result: Result<SearchResult, SearchError>) {
        if !status_is_success(reply.status) {
            return Err(upstream_error(reply));
        }
        let doc = reply.body.as_str().as_bytes();
        if !parses(doc) {
            return Err(SearchError::MalformedResponse);
        }
        let answer = match read_first_of_member(doc, "content") {
            Some(first) => read_text_member(first.as_slice(), "text"),
            None => None,
        };
        Ok(direct_result(answer, "Anthropic", self.model.as_str()))
    }
}

/// A client of OpenAI's chat completions API.
pub struct OpenAIClient {
    api_key: String,
    model: String,
}

impl OpenAIClient {
    /// The client's API key.
    pub closed spec fn api_key(&self) -> Seq<char> {
        self.api_key@
    }

    /// The model that the client puts its queries to.
    pub closed spec fn model(&self) -> Seq<char> {
        self.model@
    }

    /// A client that authenticates with `api_key` and puts its queries to `model`.
    pub fn new(api_key: String, model: String) -> (client: Self)
        ensures
            client.api_key() == api_key@,
            client.model() == model@,
    {
        OpenAIClient { api_key, model }
    }
}

impl ApiClient for OpenAIClient {
    open spec fn prepares(
        &self,
        query: Seq<char>,
        request: Result<HttpRequestView, SearchErrorView>,
    ) -> bool {
        if self.api_key().len() == 0 {
            request == Err::<HttpRequestView, SearchErrorView>(SearchErrorView::MissingCredential)
        } else {
            request == Ok::<HttpRequestView, SearchErrorView>(
                openai_request(self.api_key(), self.model(), query),
            )
        }
    }

    open spec fn outcome(&self, reply: HttpReplyView) -> Result<SearchResultView, SearchErrorView> {
        direct_outcome(reply, openai_answer(encode_utf8(reply.body)), "OpenAI"@, self.model())
    }

    fn begin_search(&self, query: &str) -> (request: Result<HttpRequest, SearchError>) {
        if self.api_key.as_str().is_empty() {
            return Err(SearchError::MissingCredential);
        }
        let mut bearer = chars_of("Bearer ");
        append_str(&mut bearer, self.api_key.as_str());
        let mut headers: Vec<Header> = Vec::new();
        headers.push(header("Authorization", string_of(&bearer).as_str()));
        headers.push(header("Content-Type", "application/json"));
        let mut body = chars_of("{\"messages\":[{\"content\":");
        append_str(&mut body, quoted(query).as_str());
        append_str(&mut body, ",\"role\":\"user\"}],\"model\":");
        append_str(&mut body, quoted(self.model.as_str()).as_str());
        append_str(&mut body, "}");
        let request = HttpRequest {
            url: "https://api.openai.com/v1/chat/completions".to_string(),
            headers,
            body: string_of(&body),
        };
        assert(request@.headers =~= openai_request(self.api_key(), self.model(), query@).headers);
        Ok(request)
    }

    fn finish_search(&self, reply: &HttpReply) -> (result: Result<SearchResult, SearchError>) {
        if !status_is_success(reply.status) {
            return Err(upstream_error(reply));
        }
        let doc = reply.body.as_str().as_bytes();
        if !parses(doc) {
            return Err(SearchError::MalformedResponse);
        }
        let answer = match read_first_of_member(doc, "choices") {
            Some(first) => match member(first.as_slice(), "message") {
                Some(message) => read_text_member(message.as_slice(), "content"),
                None => None,
            },
            None => None,
        };
        Ok(direct_result(answer, "OpenAI", self.model.as_str()))
    }
}

} // verus!
