//! The AI assistant proxy: the caller's own token is forwarded so the
//! assistant's tool calls see only what the caller may see, and a failed
//! answer becomes a friendly reply.
use vstd::prelude::*;
use crate::auth::bearer_token;
use crate::error::ApiError;
use crate::text::{chars_to_string, has_prefix, push_str, str_chars};

verus! {

broadcast use vstd::string::group_string_axioms;

/// One turn of the conversation so far.
pub struct ChatMessage {
    pub role: String,
    pub content: String,
}

/// A question to the assistant, with the conversation so far.
pub struct AssistantChatRequest {
    pub message: String,
    pub history: Vec<ChatMessage>,
}

/// The assistant's answer.
pub struct AssistantChatResponse {
    pub reply: String,
}

/// The token to forward: the bearer token of the caller's own
/// `Authorization` header (never one minted by the server); without one,
/// 401.
pub fn forwarded_token(authorization: &Option<String>) -> (r: Result<String, ApiError>)
    ensures
        match authorization {
            Some(h) => if has_prefix(h@, "Bearer "@) {
                r matches Ok(t) && t@ == h@.subrange(7, h@.len() as int)
            } else {
                r matches Err(e) && e is Unauthorized
            },
            None => r matches Err(e) && e is Unauthorized,
        },
{
    match authorization {
        Some(h) => match bearer_token(h.as_str()) {
            Some(t) => Ok(t),
            None => Err(ApiError::Unauthorized),
        },
        None => Err(ApiError::Unauthorized),
    }
}

/// The reply shown when the assistant service answers with an error: its
/// `detail`, or "please try again shortly".
pub fn failure_reply(detail: &Option<String>) -> (r: AssistantChatResponse)
    ensures
        r.reply@ == "Sorry, I couldn't answer that — "@ + match detail {
            Some(d) => d@,
            None => "please try again shortly"@,
        },
{
    let mut out = str_chars("Sorry, I couldn't answer that — ");
    match detail {
        Some(d) => push_str(&mut out, d.as_str()),
        None => push_str(&mut out, "please try again shortly"),
    }
    AssistantChatResponse { reply: chars_to_string(&out) }
}

} // verus!
