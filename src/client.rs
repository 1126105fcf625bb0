use vstd::prelude::*;
use vstd::string::*;

use crate::error::ChatError;
use crate::history::History;

verus! {

/// Path of the chat endpoint, below the service's base URL.
pub open spec fn chat_path() -> Seq<char> {
    "/api/v1/chat"@
}

/// Base URL used when none is configured.
pub open spec fn default_url() -> Seq<char> {
    "http://localhost:5000"@
}

/// Where the generation service is reached.
pub struct Config {
    pub url: String,
}

impl Config {
    /// Create a new configuration
    pub fn new(url: String) -> (r: Config)
        ensures
            r.url == url,
    {
        Config { url }
    }

    /// Create a default configuration
    pub fn default() -> (r: Config)
        ensures
            r.url@ == default_url(),
    {
        Config { url: "http://localhost:5000".to_owned() }
    }
}

/// A client of the generation service.
pub struct Client {
    pub config: Config,
}

impl Client {
    /// A client for the service that `config` names.
    pub fn new(config: Config) -> (r: Client)
        ensures
            r.config == config,
    {
        Client { config }
    }

    /// The URL that a chat request is posted to.
    pub fn chat_url(&self) -> (r: String)
        ensures
            r@ == self.config.url@ + chat_path(),
    {
        let mut r = self.config.url.clone();
        r.append("/api/v1/chat");
        r
    }
}

/// One entry of the service's response envelope.
pub struct ChatResult {
    pub history: History,
}

/// The service's response envelope.
pub struct ApiResponse {
    pub results: Vec<ChatResult>,
}

impl ApiResponse {
    /// The history carried by the first result; an envelope without results is an error.
    pub fn first_history(self) -> (r: Result<History, ChatError>)
        ensures
            self.results@.len() == 0 ==> r == Err::<History, ChatError>(ChatError::EmptyResult),
            self.results@.len() > 0 ==> r == Ok::<History, ChatError>(self.results@[0].history),
    {
        let mut results = self.results;
        if results.len() == 0 {
            Err(ChatError::EmptyResult)
        } else {
            let first = results.swap_remove(0);
            Ok(first.history)
        }
    }
}

/// The outcome of a chat exchange, from what the exchange produced: `Err(cause)`
/// where the transport failed, `Ok(Err(cause))` where the body did not decode
/// as an envelope, and `Ok(Ok(envelope))` otherwise.
pub fn settle_reply(reply: Result<Result<ApiResponse, String>, String>) -> (r: Result<
    History,
    ChatError,
>)
    ensures
        reply matches Err(cause) ==> r == Err::<History, ChatError>(ChatError::Transport(cause)),
        reply matches Ok(Err(cause)) ==> r == Err::<History, ChatError>(ChatError::Decode(cause)),
        reply matches Ok(Ok(envelope)) ==> {
            &&& envelope.results@.len() == 0 ==> r == Err::<History, ChatError>(
                ChatError::EmptyResult,
            )
            &&& envelope.results@.len() > 0 ==> r == Ok::<History, ChatError>(
                envelope.results@[0].history,
            )
        },
{
    match reply {
        Err(cause) => Err(ChatError::Transport(cause)),
        Ok(Err(cause)) => Err(ChatError::Decode(cause)),
        Ok(Ok(envelope)) => envelope.first_history(),
    }
}

} // verus!
