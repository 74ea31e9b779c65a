//! The client of the self-hosted relay.
//!
//! The relay is reached in plaintext or, where encryption is enabled and a
//! secret is configured, through encrypted envelopes. Both transports carry
//! the same JSON payload and answer with the same fields.

use crate::api::{
    header, header_pairs, is_success, option_text, outcome_view, request_view,
    status_is_success, upstream_error, ApiClient, Exchange, Header, HttpReply, HttpReplyView,
    HttpRequest, HttpRequestView, SearchError, SearchErrorView, SearchResult, SearchResultView,
};
use crate::base64code::base64_text;
use crate::encryption::{
    carries, envelope_fits, opened_envelope, sealed_blob, EncryptError, SecureMessenger,
};
use crate::endpoint::{
    app_id_spec, cancel_endpoint, cancel_endpoint_spec, declared_version, get_app_id,
    secure_endpoint, secure_endpoint_spec,
};
use crate::json::{
    compact, json_compact, json_parses, json_quoted, parses, quoted, read_text_member,
    text_member,
};
use crate::key::derive_key_spec;
use crate::reply::{
    plain_result, plain_result_spec, read_reply_fields, reply_fields, secure_result,
    secure_result_spec,
};
use crate::text::{append_str, chars_of, string_of};
use vstd::prelude::*;
use vstd::string::*;
use vstd::utf8::encode_utf8;

verus! {

/// The JSON payload of a query: the prompt, the requested provider, the
/// token budget, the chat mode, and the conversation where one is held.
pub open spec fn relay_payload_spec(
    query: Seq<char>,
    chat_mode: bool,
    conversation_id: Option<Seq<char>>,
) -> Seq<char> {
    "{\"chat_mode\":"@ + (if chat_mode {
        "true"@
    } else {
        "false"@
    }) + (match conversation_id {
        Some(id) => ",\"conversation_id\":"@ + json_quoted(id),
        None => Seq::empty(),
    }) + ",\"max_tokens\":1024,\"prompt\":"@ + json_quoted(query)
        + ",\"provider\":\"anthropic\"}"@
}

/// The headers of every request to the relay: the API key where one is
/// configured, and the client identity tag.
pub open spec fn relay_headers_spec(api_key: Seq<char>) -> Seq<(Seq<char>, Seq<char>)> {
    (if api_key.len() > 0 {
        seq![("X-API-KEY"@, api_key)]
    } else {
        Seq::empty()
    }) + seq![("X-APP-ID"@, app_id_spec(declared_version()))]
}

/// The request body that carries an envelope.
pub open spec fn envelope_body(envelope: Seq<char>) -> Seq<char> {
    "{\"data\":"@ + json_quoted(envelope) + "}"@
}

/// The body of a cancel request.
pub open spec fn cancel_body(request_id: Seq<char>) -> Seq<char> {
    "{\"request_id\":"@ + json_quoted(request_id) + "}"@
}

/// The request that cancels `request_id` at the relay behind `url`.
pub open spec fn cancel_request_spec(
    request_id: Seq<char>,
    url: Seq<char>,
    api_key: Seq<char>,
) -> HttpRequestView {
    HttpRequestView {
        url: cancel_endpoint_spec(url),
        headers: relay_headers_spec(api_key),
        body: cancel_body(request_id),
    }
}

/// Builds the JSON payload of a query.
pub fn relay_payload(query: &str, chat_mode: bool, conversation_id: &Option<String>) -> (payload:
    String)
    ensures
        payload@ == relay_payload_spec(query@, chat_mode, option_text(*conversation_id)),
{
    let mut out = chars_of("{\"chat_mode\":");
    if chat_mode {
        append_str(&mut out, "true");
    } else {
        append_str(&mut out, "false");
    }
    match conversation_id {
        Some(id) => {
            append_str(&mut out, ",\"conversation_id\":");
            append_str(&mut out, quoted(id.as_str()).as_str());
        },
        None => {
            assert(out@ + Seq::<char>::empty() == out@);
        },
    }
    append_str(&mut out, ",\"max_tokens\":1024,\"prompt\":");
    append_str(&mut out, quoted(query).as_str());
    append_str(&mut out, ",\"provider\":\"anthropic\"}");
    string_of(&out)
}

/// Builds the headers of a request to the relay.
pub fn relay_headers(api_key: &str) -> (headers: Vec<Header>)
    ensures
        header_pairs(headers@) == relay_headers_spec(api_key@),
{
    let mut headers: Vec<Header> = Vec::new();
    if !api_key.is_empty() {
        headers.push(header("X-API-KEY", api_key));
    }
    headers.push(header("X-APP-ID", get_app_id().as_str()));
    assert(header_pairs(headers@) =~= relay_headers_spec(api_key@));
    headers
}

/// Wraps an envelope into a request body.
pub fn envelope_request_body(envelope: &str) -> (body: String)
    ensures
        body@ == envelope_body(envelope@),
{
    let mut out = chars_of("{\"data\":");
    append_str(&mut out, quoted(envelope).as_str());
    append_str(&mut out, "}");
    string_of(&out)
}

/// How an attempt to cancel a request ended. None of these is an error:
/// cancelling is best effort, and the request may well have completed.
#[derive(Debug, Clone, PartialEq, Eq)]
pub enum CancelOutcome {
    /// The relay accepted the cancellation.
    Cancelled,
    /// The relay answered with this status outside 200..=299.
    Declined(u16),
    /// No reply arrived; the text says why.
    Unreachable(String),
}

/// What a `CancelOutcome` holds.
pub enum CancelOutcomeView {
    Cancelled,
    Declined(u16),
    Unreachable(Seq<char>),
}

impl View for CancelOutcome {
    type V = CancelOutcomeView;

    open spec fn view(&self) -> CancelOutcomeView {
        match *self {
            CancelOutcome::Cancelled => CancelOutcomeView::Cancelled,
            CancelOutcome::Declined(status) => CancelOutcomeView::Declined(status),
            CancelOutcome::Unreachable(why) => CancelOutcomeView::Unreachable(why@),
        }
    }
}

/// What a finished cancel exchange means.
pub open spec fn cancel_outcome_spec(exchange: Exchange) -> CancelOutcomeView {
    match exchange {
        Exchange::Replied(reply) => if is_success(reply.status) {
            CancelOutcomeView::Cancelled
        } else {
            CancelOutcomeView::Declined(reply.status)
        },
        Exchange::Failed(why) => CancelOutcomeView::Unreachable(why@),
    }
}

/// Prepares the request that asks the relay behind `telegram_url` to
/// cancel the request `request_id`.
pub fn cancel_request(request_id: &str, telegram_url: &str, api_key: &str) -> (request:
    HttpRequest)
    ensures
        request@ == cancel_request_spec(request_id@, telegram_url@, api_key@),
{
    let mut body = chars_of("{\"request_id\":");
    append_str(&mut body, quoted(request_id).as_str());
    append_str(&mut body, "}");
    HttpRequest {
        url: cancel_endpoint(telegram_url),
        headers: relay_headers(api_key),
        body: string_of(&body),
    }
}

/// Says how an attempt to cancel ended, whatever the exchange brought.
pub fn cancel_outcome(exchange: &Exchange) -> (outcome: CancelOutcome)
    ensures
        outcome@ == cancel_outcome_spec(*exchange),
{
    match exchange {
        Exchange::Replied(reply) => {
            if status_is_success(reply.status) {
                CancelOutcome::Cancelled
            } else {
                CancelOutcome::Declined(reply.status)
            }
        },
        Exchange::Failed(why) => CancelOutcome::Unreachable(why.clone()),
    }
}

/// What a plaintext answer with body `body` means: the fields of a JSON
/// body, and the body itself as text where it is no JSON.
pub open spec fn plain_outcome(body: Seq<char>) -> SearchResultView {
    let doc = encode_utf8(body);
    plain_result_spec(
        body,
        if json_parses(doc) {
            Some(reply_fields(doc))
        } else {
            None
        },
    )
}

/// What an encrypted answer with body `doc` means under `key`: the body
/// must hold an envelope in its string member `data`, and the envelope
/// must open to a JSON document, whose fields are the answer.
pub open spec fn secure_outcome(key: Seq<u8>, doc: Seq<u8>) -> Result<
    SearchResultView,
    SearchErrorView,
> {
    match text_member(doc, "data"@) {
        None => Err(SearchErrorView::MalformedResponse),
        Some(envelope) => match opened_envelope(key, envelope) {
            Err(e) => Err(SearchErrorView::DecryptError(e)),
            Ok(payload) => Ok(
                secure_result_spec(
                    match json_compact(payload) {
                        Some(whole) => whole,
                        None => Seq::empty(),
                    },
                    reply_fields(payload),
                ),
            ),
        },
    }
}

/// Interprets the body of a plaintext answer.
pub fn interpret_plain(body: &str) -> (result: SearchResult)
    ensures
        result@ == plain_outcome(body@),
{
    let doc = body.as_bytes();
    if parses(doc) {
        plain_result(body, Some(read_reply_fields(doc)))
    } else {
        plain_result(body, None)
    }
}

/// Interprets the body of an encrypted answer.
pub fn interpret_secure(messenger: &SecureMessenger, body: &str) -> (result: Result<
    SearchResult,
    SearchError,
>)
    ensures
        outcome_view(result) == secure_outcome(messenger.key(), encode_utf8(body@)),
{
    let envelope = match read_text_member(body.as_bytes(), "data") {
        Some(envelope) => envelope,
        None => {
            return Err(SearchError::MalformedResponse);
        },
    };
    match messenger.decrypt_json(envelope.as_str()) {
        Err(e) => Err(SearchError::DecryptError(e)),
        Ok(payload) => {
            let whole = match compact(payload.as_slice()) {
                Some(whole) => whole,
                None => String::new(),
            };
            Ok(secure_result(whole.as_str(), read_reply_fields(payload.as_slice())))
        },
    }
}

/// The client of the relay.
pub struct TelegramClient {
    url: String,
    api_key: String,
    encryption_key: Option<String>,
    use_encryption: bool,
    chat_mode: bool,
    conversation_id: Option<String>,
}

/// What a `TelegramClient` holds.
pub struct TelegramClientView {
    pub url: Seq<char>,
    pub api_key: Seq<char>,
    pub encryption_key: Option<Seq<char>>,
    pub use_encryption: bool,
    pub chat_mode: bool,
    pub conversation_id: Option<Seq<char>>,
}

impl TelegramClientView {
    /// Whether the client uses the encrypted transport: encryption is
    /// enabled and a secret is configured.
    pub open spec fn encrypts(self) -> bool {
        self.use_encryption && self.encryption_key is Some
    }

    /// The key of the encrypted transport.
    pub open spec fn key(self) -> Seq<u8> {
        derive_key_spec(self.encryption_key->0)
    }

    /// The payload of a query, as text.
    pub open spec fn payload(self, query: Seq<char>) -> Seq<char> {
        relay_payload_spec(query, self.chat_mode, self.conversation_id)
    }

    /// The request of the plaintext transport: the payload itself, sent to
    /// the configured URL as it is; refused where no URL is configured.
    pub open spec fn plain_request(self, query: Seq<char>) -> Result<
        HttpRequestView,
        SearchErrorView,
    > {
        if self.url.len() == 0 {
            Err(SearchErrorView::MissingCredential)
        } else {
            Ok(
                HttpRequestView {
                    url: self.url,
                    headers: relay_headers_spec(self.api_key),
                    body: self.payload(query),
                },
            )
        }
    }

    /// The request of the encrypted transport that carries `envelope`.
    pub open spec fn secure_request(self, envelope: Seq<char>) -> HttpRequestView {
        HttpRequestView {
            url: secure_endpoint_spec(self.url),
            headers: relay_headers_spec(self.api_key),
            body: envelope_body(envelope),
        }
    }
}

/// Whether `request` is an answer that the client may give for `query`.
/// On the encrypted transport the envelope depends on the nonce drawn, so
/// any request qualifies whose envelope carries the payload; a payload too
/// long for an envelope is refused, and so may any be while the random
/// source fails.
pub open spec fn relay_prepares(
    client: TelegramClientView,
    query: Seq<char>,
    request: Result<HttpRequestView, SearchErrorView>,
) -> bool {
    if client.encrypts() {
        let payload = encode_utf8(client.payload(query));
        match request {
            Ok(r) => envelope_fits(payload.len()) && exists|envelope: Seq<char>|
                #[trigger] carries(client.key(), envelope, payload) && r == client.secure_request(
                    envelope,
                ),
            Err(e) => if envelope_fits(payload.len()) {
                e == SearchErrorView::EncryptError(EncryptError::RandomSource)
            } else {
                e == SearchErrorView::EncryptError(EncryptError::TooLong)
            },
        }
    } else {
        request == client.plain_request(query)
    }
}

/// What a reply means to the client.
pub open spec fn relay_outcome(client: TelegramClientView, reply: HttpReplyView) -> Result<
    SearchResultView,
    SearchErrorView,
> {
    if !is_success(reply.status) {
        Err(SearchErrorView::UpstreamError { status: reply.status, body: reply.body })
    } else if client.encrypts() {
        secure_outcome(client.key(), encode_utf8(reply.body))
    } else {
        Ok(plain_outcome(reply.body))
    }
}

impl View for TelegramClient {
    type V = TelegramClientView;

    closed spec fn view(&self) -> TelegramClientView {
        TelegramClientView {
            url: self.url@,
            api_key: self.api_key@,
            encryption_key: option_text(self.encryption_key),
            use_encryption: self.use_encryption,
            chat_mode: self.chat_mode,
            conversation_id: option_text(self.conversation_id),
        }
    }
}

impl TelegramClient {
    /// A client of the relay behind `url`. The encrypted transport is used
    /// where `use_encryption` is set and `encryption_key` is given.
    pub fn new(
        url: String,
        api_key: String,
        encryption_key: Option<String>,
        use_encryption: bool,
        chat_mode: bool,
        conversation_id: Option<String>,
    ) -> (client: Self)
        ensures
            client@ == (TelegramClientView {
                url: url@,
                api_key: api_key@,
                encryption_key: option_text(encryption_key),
                use_encryption,
                chat_mode,
                conversation_id: option_text(conversation_id),
            }),
    {
        TelegramClient { url, api_key, encryption_key, use_encryption, chat_mode, conversation_id }
    }

    /// Whether the client uses the encrypted transport.
    pub fn uses_encryption(&self) -> (encrypts: bool)
        ensures
            encrypts == self@.encrypts(),
    {
        self.use_encryption && self.encryption_key.is_some()
    }

    /// Prepares the request of the plaintext transport.
    fn begin_plain(&self, query: &str) -> (request: Result<HttpRequest, SearchError>)
        ensures
            request_view(request) == self@.plain_request(query@),
    {
        if self.url.as_str().is_empty() {
            return Err(SearchError::MissingCredential);
        }
        Ok(
            HttpRequest {
                url: self.url.clone(),
                headers: relay_headers(self.api_key.as_str()),
                body: relay_payload(query, self.chat_mode, &self.conversation_id),
            },
        )
    }

    /// Puts an envelope into the request of the encrypted transport.
    fn secure_request(&self, envelope: &str) -> (request: HttpRequest)
        ensures
            request@ == self@.secure_request(envelope@),
    {
        HttpRequest {
            url: secure_endpoint(self.url.as_str()),
            headers: relay_headers(self.api_key.as_str()),
            body: envelope_request_body(envelope),
        }
    }

    /// The cipher of the encrypted transport; `None` where the client uses
    /// the plaintext transport.
    fn messenger(&self) -> (messenger: Option<SecureMessenger>)
        ensures
            messenger is Some <==> self@.encrypts(),
            messenger matches Some(m) ==> m.key() == self@.key(),
    {
        if !self.use_encryption {
            return None;
        }
        match &self.encryption_key {
            Some(secret) => Some(SecureMessenger::new(secret.as_str())),
            None => None,
        }
    }

    /// Prepares the request of a search with the given nonce, which the
    /// plaintext transport does not use.
    pub fn begin_search_with_nonce(&self, query: &str, nonce: &[u8; 12]) -> (request: Result<
        HttpRequest,
        SearchError,
    >)
        ensures
            relay_prepares(self@, query@, request_view(request)),
            self@.encrypts() ==> (request is Ok <==> envelope_fits(
                encode_utf8(self@.payload(query@)).len(),
            )),
            self@.encrypts() ==> (request matches Ok(r) ==> r@ == self@.secure_request(
                base64_text(
                    sealed_blob(self@.key(), nonce@, encode_utf8(self@.payload(query@))),
                ),
            )),
    {
        let messenger = match self.messenger() {
            Some(messenger) => messenger,
            None => {
                return self.begin_plain(query);
            },
        };
        let payload = relay_payload(query, self.chat_mode, &self.conversation_id);
        match messenger.encrypt_json_with_nonce(nonce, payload.as_str().as_bytes()) {
            Ok(envelope) => {
                let request = self.secure_request(envelope.as_str());
                assert(carries(self@.key(), envelope@, encode_utf8(self@.payload(query@))));
                Ok(request)
            },
            Err(e) => Err(SearchError::EncryptError(e)),
        }
    }
}

impl ApiClient for TelegramClient {
    open spec fn prepares(
        &self,
        query: Seq<char>,
        request: Result<HttpRequestView, SearchErrorView>,
    ) -> bool {
        relay_prepares(self@, query, request)
    }

    open spec fn outcome(&self, reply: HttpReplyView) -> Result<SearchResultView, SearchErrorView> {
        relay_outcome(self@, reply)
    }

    fn begin_search(&self, query: &str) -> (request: Result<HttpRequest, SearchError>) {
        let messenger = match self.messenger() {
            Some(messenger) => messenger,
            None => {
                return self.begin_plain(query);
            },
        };
        let payload = relay_payload(query, self.chat_mode, &self.conversation_id);
        match messenger.encrypt_json(payload.as_str().as_bytes()) {
            Ok(envelope) => {
                let request = self.secure_request(envelope.as_str());
                assert(carries(self@.key(), envelope@, encode_utf8(self@.payload(query@))));
                Ok(request)
            },
            Err(e) => Err(SearchError::EncryptError(e)),
        }
    }

    fn finish_search(&self, reply: &HttpReply) -> (result: Result<SearchResult, SearchError>) {
        if !status_is_success(reply.status) {
            return Err(upstream_error(reply));
        }
        match self.messenger() {
            Some(messenger) => interpret_secure(&messenger, reply.body.as_str()),
            None => Ok(interpret_plain(reply.body.as_str())),
        }
    }
}

} // verus!
