//! Translation of a thought map into a chat-completion request, and extraction
//! of the recommendation from the provider's reply.

pub mod json;
pub mod error;
pub mod reply;
pub mod request;
pub mod gateway;
