//! Building the chat-completion request for a thought map, and the
//! configuration without which no request is built.

use vstd::prelude::*;
use crate::error::RecommendationError;
use crate::json::{quote, string_literal};

verus! {

/// The provider's chat-completions endpoint.
pub const ENDPOINT: &'static str = "https://api.groq.com/openai/v1/chat/completions";

/// The model that every request names.
pub const MODEL: &'static str = "mixtral-8x7b-32768";

/// The fixed instruction sent as the system message.
pub const SYSTEM_PROMPT: &'static str = "You are an AI assistant that provides recommendations based on thought maps.";

/// The text that precedes the thought map in the user message.
pub const USER_PREFIX: &'static str = "Given this thought map, provide a recommendation: ";

/// The user message for a thought map: the fixed prefix, then the thought map
/// exactly as given.
pub open spec fn user_prompt(thought_map: Seq<char>) -> Seq<char> {
    USER_PREFIX@ + thought_map
}

/// The JSON text of a request naming `model`, with one system message and one
/// user message, in that order.
pub open spec fn body_text(model: Seq<char>, system: Seq<char>, user: Seq<char>) -> Seq<char> {
    "{\"model\":"@ + string_literal(model) + ",\"messages\":[{\"role\":\"system\",\"content\":"@
        + string_literal(system) + "},{\"role\":\"user\",\"content\":"@ + string_literal(user)
        + "}]}"@
}

/// The JSON text of the request sent for a thought map.
pub open spec fn request_body(thought_map: Seq<char>) -> Seq<char> {
    body_text(MODEL@, SYSTEM_PROMPT@, user_prompt(thought_map))
}

/// The part of every request body that precedes the user message.
pub open spec fn body_head() -> Seq<char> {
    "{\"model\":"@ + string_literal(MODEL@) + ",\"messages\":[{\"role\":\"system\",\"content\":"@
        + string_literal(SYSTEM_PROMPT@) + "},{\"role\":\"user\",\"content\":"@
}

/// Whatever the thought map, the request body is a fixed head, then the user
/// message as a JSON string literal, then a fixed tail; the user message is
/// the fixed prefix followed by the thought map exactly as given.
pub proof fn user_message_carries_thought_map(thought_map: Seq<char>)
    ensures
        request_body(thought_map) == body_head() + string_literal(USER_PREFIX@ + thought_map)
            + "}]}"@,
{
}

/// Two thought maps give the same user message only when they are the same:
/// no request carries another request's thought map.
pub proof fn requests_are_independent(a: Seq<char>, b: Seq<char>)
    ensures
        (user_prompt(a) == user_prompt(b)) <==> (a == b),
        (request_body(a) == request_body(b)) <== (a == b),
{
    if user_prompt(a) == user_prompt(b) {
        let n = USER_PREFIX@.len() as int;
        assert(a =~= user_prompt(a).subrange(n, user_prompt(a).len() as int));
        assert(b =~= user_prompt(b).subrange(n, user_prompt(b).len() as int));
    }
}

/// A chat-completion request: the model, the system message and the user
/// message.
pub struct CompletionRequest {
    pub model: String,
    pub system: String,
    pub user: String,
}

impl CompletionRequest {
    /// The request for a thought map, which is embedded unchanged.
    pub fn new(thought_map: &str) -> (r: CompletionRequest)
        ensures
            r.model@ == MODEL@,
            r.system@ == SYSTEM_PROMPT@,
            r.user@ == user_prompt(thought_map@),
    {
        CompletionRequest {
            model: String::from_str(MODEL),
            system: String::from_str(SYSTEM_PROMPT),
            user: String::from_str(USER_PREFIX).concat(thought_map),
        }
    }

    /// The request serialized as JSON, each text as a JSON string literal.
    pub fn body(&self) -> (r: String)
        ensures
            r@ == body_text(self.model@, self.system@, self.user@),
    {
        let mut out = String::from_str("{\"model\":");
        out.append(quote(self.model.as_str()).as_str());
        out.append(",\"messages\":[{\"role\":\"system\",\"content\":");
        out.append(quote(self.system.as_str()).as_str());
        out.append("},{\"role\":\"user\",\"content\":");
        out.append(quote(self.user.as_str()).as_str());
        out.append("}]}");
        out
    }
}

/// An HTTP request ready to be sent: where, with which `Authorization`
/// header, and with which JSON body.
pub struct OutboundRequest {
    pub url: String,
    pub authorization: String,
    pub body: String,
}

/// The process-wide configuration: the provider's API key, present by
/// construction.
pub struct Config {
    api_key: String,
}

impl Config {
    /// The key this configuration holds.
    pub closed spec fn key(&self) -> Seq<char> {
        self.api_key@
    }

    /// Accepts the API key read at start-up; a missing key is a
    /// configuration error, and without a `Config` no request can be built.
    pub fn new(api_key: Option<String>) -> (r: Result<Config, RecommendationError>)
        ensures
            match api_key {
                None => r matches Err(RecommendationError::Configuration),
                Some(k) => r matches Ok(c) && c.key() == k@,
            },
    {
        match api_key {
            None => Err(RecommendationError::Configuration),
            Some(k) => Ok(Config { api_key: k }),
        }
    }

    /// The request that asks the completion service for a recommendation on
    /// a thought map, authenticated with this configuration's key.
    pub fn request(&self, thought_map: &str) -> (r: OutboundRequest)
        ensures
            r.url@ == ENDPOINT@,
            r.authorization@ == "Bearer "@ + self.key(),
            r.body@ == request_body(thought_map@),
    {
        let mut authorization = String::from_str("Bearer ");
        authorization.append(self.api_key.as_str());
        OutboundRequest {
            url: String::from_str(ENDPOINT),
            authorization,
            body: CompletionRequest::new(thought_map).body(),
        }
    }
}

} // verus!
