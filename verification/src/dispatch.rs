//! Choosing a provider, starting a search, and keeping the conversation.
//!
//! The dispatcher decides; it does not wait. `perform_search` says what is
//! to be done for a query: nothing, send a request, or report at once that
//! the search is refused. The caller runs the exchange off its own thread
//! and hands the result to `ConversationState::absorb`.

use crate::api::{
    option_text, ApiClient, HttpReply, HttpReplyView, HttpRequest, HttpRequestView, SearchError,
    SearchErrorView, SearchResult, SearchResultView,
};
use crate::direct::{AnthropicClient, OpenAIClient};
use crate::relay::{TelegramClient, TelegramClientView};
use crate::text::{clone_option, same_text};
use vstd::prelude::*;
use vstd::string::*;

verus! {

/// The providers that a search can go to.
#[derive(Debug, Clone, Copy, PartialEq, Eq, Structural)]
pub enum Provider {
    Anthropic,
    OpenAI,
    Telegram,
}

/// The provider that a configured name selects.
pub open spec fn provider_named(name: Seq<char>) -> Option<Provider> {
    if name == "anthropic"@ {
        Some(Provider::Anthropic)
    } else if name == "openai"@ {
        Some(Provider::OpenAI)
    } else if name == "telegram"@ {
        Some(Provider::Telegram)
    } else {
        None
    }
}

/// Maps a configured provider name to the provider; `None` for a name
/// that selects none.
pub fn provider_from_name(name: &str) -> (provider: Option<Provider>)
    ensures
        provider == provider_named(name@),
{
    if same_text(name, "anthropic") {
        Some(Provider::Anthropic)
    } else if same_text(name, "openai") {
        Some(Provider::OpenAI)
    } else if same_text(name, "telegram") {
        Some(Provider::Telegram)
    } else {
        None
    }
}

/// The credentials of all providers, as the caller has them configured.
#[derive(Debug, Clone, PartialEq, Eq)]
pub struct ApiKeys {
    pub anthropic: String,
    /// The model that queries to Anthropic go to.
    pub anthropic_model: String,
    pub openai: String,
    /// The model that queries to OpenAI go to.
    pub openai_model: String,
    pub telegram_url: String,
    pub telegram_key: String,
    /// The relay's encryption secret; empty where none is configured.
    pub telegram_enc_key: String,
    pub telegram_use_encryption: bool,
}

/// A client of one of the providers.
pub enum Client {
    Anthropic(AnthropicClient),
    OpenAI(OpenAIClient),
    Telegram(TelegramClient),
}

impl ApiClient for Client {
    open spec fn prepares(
        &self,
        query: Seq<char>,
        request: Result<HttpRequestView, SearchErrorView>,
    ) -> bool {
        match self {
            Client::Anthropic(c) => c.prepares(query, request),
            Client::OpenAI(c) => c.prepares(query, request),
            Client::Telegram(c) => c.prepares(query, request),
        }
    }

    open spec fn outcome(&self, reply: HttpReplyView) -> Result<SearchResultView, SearchErrorView> {
        match self {
            Client::Anthropic(c) => c.outcome(reply),
            Client::OpenAI(c) => c.outcome(reply),
            Client::Telegram(c) => c.outcome(reply),
        }
    }

    fn begin_search(&self, query: &str) -> (request: Result<HttpRequest, SearchError>) {
        match self {
            Client::Anthropic(c) => c.begin_search(query),
            Client::OpenAI(c) => c.begin_search(query),
            Client::Telegram(c) => c.begin_search(query),
        }
    }

    fn finish_search(&self, reply: &HttpReply) -> (result: Result<SearchResult, SearchError>) {
        match self {
            Client::Anthropic(c) => c.finish_search(reply),
            Client::OpenAI(c) => c.finish_search(reply),
            Client::Telegram(c) => c.finish_search(reply),
        }
    }
}

/// The relay client that the configured credentials describe: the
/// encryption secret counts as configured where it is not empty.
pub open spec fn relay_client_spec(
    keys: ApiKeys,
    chat_mode: bool,
    conversation_id: Option<Seq<char>>,
) -> TelegramClientView {
    TelegramClientView {
        url: keys.telegram_url@,
        api_key: keys.telegram_key@,
        encryption_key: if keys.telegram_enc_key@.len() > 0 {
            Some(keys.telegram_enc_key@)
        } else {
            None
        },
        use_encryption: keys.telegram_use_encryption,
        chat_mode,
        conversation_id,
    }
}

/// Whether `client` is the client of `provider` with the configured
/// credentials.
pub open spec fn is_selected(
    client: Client,
    provider: Provider,
    keys: ApiKeys,
    chat_mode: bool,
    conversation_id: Option<Seq<char>>,
) -> bool {
    match provider {
        Provider::Anthropic => client matches Client::Anthropic(c) && c.api_key()
            == keys.anthropic@ && c.model() == keys.anthropic_model@,
        Provider::OpenAI => client matches Client::OpenAI(c) && c.api_key() == keys.openai@
            && c.model() == keys.openai_model@,
        Provider::Telegram => client matches Client::Telegram(c) && c@ == relay_client_spec(
            keys,
            chat_mode,
            conversation_id,
        ),
    }
}

/// Creates the client of `provider` from the configured credentials.
pub fn select_client(
    provider: Provider,
    keys: &ApiKeys,
    chat_mode: bool,
    conversation_id: Option<String>,
) -> (client: Client)
    ensures
        is_selected(client, provider, *keys, chat_mode, option_text(conversation_id)),
{
    match provider {
        Provider::Anthropic => Client::Anthropic(
            AnthropicClient::new(keys.anthropic.clone(), keys.anthropic_model.clone()),
        ),
        Provider::OpenAI => Client::OpenAI(
            OpenAIClient::new(keys.openai.clone(), keys.openai_model.clone()),
        ),
        Provider::Telegram => {
            let encryption_key = if !keys.telegram_enc_key.as_str().is_empty() {
                Some(keys.telegram_enc_key.clone())
            } else {
                None
            };
            Client::Telegram(
                TelegramClient::new(
                    keys.telegram_url.clone(),
                    keys.telegram_key.clone(),
                    encryption_key,
                    keys.telegram_use_encryption,
                    chat_mode,
                    conversation_id,
                ),
            )
        },
    }
}

/// What is to be done for a query.
pub enum Dispatch {
    /// Nothing: the query is empty.
    Idle,
    /// Send `request`, and hand the exchange to `client` when it ends.
    Send { client: Client, request: HttpRequest },
    /// Send nothing: the search is refused with this error.
    Refused(SearchError),
}

/// The API key that `provider` is configured with.
pub open spec fn configured_key(provider: Provider, keys: ApiKeys) -> Seq<char> {
    match provider {
        Provider::Anthropic => keys.anthropic@,
        Provider::OpenAI => keys.openai@,
        Provider::Telegram => keys.telegram_key@,
    }
}

/// Starts a search. An empty query starts nothing. A direct provider
/// without an API key, and a plaintext relay without a URL, are refused
/// with `MissingCredential` before anything is sent.
pub fn perform_search(
    query: &str,
    provider: Provider,
    keys: &ApiKeys,
    chat_mode: bool,
    conversation_id: Option<String>,
) -> (dispatch: Dispatch)
    ensures
        dispatch is Idle <==> query@.len() == 0,
        dispatch matches Dispatch::Send { client, request } ==> {
            &&& is_selected(client, provider, *keys, chat_mode, option_text(conversation_id))
            &&& client.prepares(query@, Ok(request@))
        },
        dispatch matches Dispatch::Refused(error) ==> exists|client: Client|
            #[trigger] is_selected(client, provider, *keys, chat_mode, option_text(conversation_id))
                && client.prepares(query@, Err(error@)),
        query@.len() > 0 && provider != Provider::Telegram && configured_key(provider, *keys).len()
            == 0 ==> (dispatch matches Dispatch::Refused(error) && error@
            == SearchErrorView::MissingCredential),
{
    if query.is_empty() {
        return Dispatch::Idle;
    }
    let client = select_client(provider, keys, chat_mode, conversation_id);
    match client.begin_search(query) {
        Ok(request) => Dispatch::Send { client, request },
        Err(error) => Dispatch::Refused(error),
    }
}

/// One finished turn of a conversation.
#[derive(Debug, Clone, PartialEq, Eq)]
pub struct Turn {
    pub query: String,
    pub answer: String,
}

/// The caller's side of a conversation: the identifier that the relay
/// issued, and the turns so far.
pub struct ConversationState {
    conversation_id: Option<String>,
    history: Vec<Turn>,
}

impl ConversationState {
    /// The identifier to send with the next query.
    pub closed spec fn id(&self) -> Option<Seq<char>> {
        option_text(self.conversation_id)
    }

    /// The turns so far, as pairs of query and answer.
    pub closed spec fn turns(&self) -> Seq<(Seq<char>, Seq<char>)> {
        Seq::new(
            self.history@.len(),
            |i: int| (self.history@[i].query@, self.history@[i].answer@),
        )
    }

    /// A conversation that has not begun.
    pub fn new() -> (state: Self)
        ensures
            state.id() is None,
            state.turns() == Seq::<(Seq<char>, Seq<char>)>::empty(),
    {
        let state = ConversationState { conversation_id: None, history: Vec::new() };
        assert(state.turns() =~= Seq::<(Seq<char>, Seq<char>)>::empty());
        state
    }

    /// The identifier to send with the next query.
    pub fn conversation_id(&self) -> (id: Option<String>)
        ensures
            option_text(id) == self.id(),
    {
        clone_option(&self.conversation_id)
    }

    /// The number of turns so far.
    pub fn len(&self) -> (n: usize)
        ensures
            n == self.turns().len(),
    {
        self.history.len()
    }

    /// Takes in the result of a turn: the answer joins the history, and an
    /// identifier that the result carries replaces the one held.
    pub fn absorb(&mut self, query: &str, result: &SearchResult)
        ensures
            final(self).id() == match result@.conversation_id {
                Some(id) => Some(id),
                None => old(self).id(),
            },
            final(self).turns() == old(self).turns().push((query@, result@.text)),
    {
        if result.conversation_id.is_some() {
            self.conversation_id = clone_option(&result.conversation_id);
        }
        self.history.push(Turn { query: query.to_string(), answer: result.text.clone() });
        assert(self.turns() =~= old(self).turns().push((query@, result@.text)));
    }

    /// Forgets the conversation: the next query begins a new one.
    pub fn clear(&mut self)
        ensures
            final(self).id() is None,
            final(self).turns() == Seq::<(Seq<char>, Seq<char>)>::empty(),
    {
        self.conversation_id = None;
        self.history.clear();
        assert(self.turns() =~= Seq::<(Seq<char>, Seq<char>)>::empty());
    }
}

} // verus!
