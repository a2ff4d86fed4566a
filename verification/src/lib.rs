//! A verified relay from a caller's text to a chat-completion upstream.
//!
//! The library holds everything the relay decides and computes: building the
//! two-message prompt, encoding the outbound request body as JSON, decoding
//! the upstream reply, extracting the answer from it, and choosing the status
//! and body of the relay's own response.  The surrounding binary only moves
//! bytes over the network and hands the results back in.

pub mod chat;
pub mod escape;
pub mod json;
pub mod relay;

pub use chat::build_chat_request;
pub use chat::encode_chat_request;
pub use json::JsonValue;
pub use relay::plan_paraphrase;
pub use relay::respond_to_outcome;
pub use relay::OutboundCall;
pub use relay::RelayResponse;
pub use relay::UpstreamOutcome;
