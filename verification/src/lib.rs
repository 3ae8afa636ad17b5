//! A unification layer for streaming chat responses from OpenAI-compatible
//! large-language-model providers.
//!
//! The heart of the crate is a pull-driven state machine that consumes raw
//! server-sent events, reconstructs content, reasoning and fragmented
//! tool-call deltas, optionally captures them, and emits a provider-agnostic
//! sequence of normalized events.

pub mod assembler;
pub mod chat_stream;
pub mod chat_types;
pub mod image_request;
pub mod image_response;
pub mod decoder;
pub mod inter_stream;
pub mod json;
pub mod json_text;
pub mod streamer;

pub use json::Json;
