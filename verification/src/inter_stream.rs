//! Internal stream event types that sit between the provider streamer and
//! the public chat stream event, so that new provider families can plug in
//! without touching the public surface.

use crate::chat_types::{ToolCall, Usage};
use vstd::prelude::*;

verus! {

/// What the streamer hands over with the terminal event: each field is
/// present only when its capture flag was set and matching data arrived.
#[derive(Debug, PartialEq)]
pub struct InterStreamEnd {
    /// Captured usage, when usage capture was on.
    pub captured_usage: Option<Usage>,
    /// The concatenated content deltas, when content capture was on.
    pub captured_content: Option<String>,
    /// The concatenated reasoning deltas, when reasoning capture was on.
    pub captured_reasoning_content: Option<String>,
    /// The finalized tool calls, when tool capture was on.
    pub captured_tools: Vec<ToolCall>,
}

impl Default for InterStreamEnd {
    /// An end event with nothing captured.
    fn default() -> (r: Self)
        ensures
            r.captured_usage is None,
            r.captured_content is None,
            r.captured_reasoning_content is None,
            r.captured_tools@.len() == 0,
    {
        InterStreamEnd {
            captured_usage: None,
            captured_content: None,
            captured_reasoning_content: None,
            captured_tools: Vec::new(),
        }
    }
}

/// An intermediary reasoning delta.
#[derive(Debug, PartialEq)]
pub enum InterReasoningChunk {
    /// A fragment of reasoning text.
    Content(String),
}

/// An intermediary tool-call delta, exactly as the fragment arrived.
#[derive(Debug, PartialEq)]
pub struct InterStreamChunkTool {
    /// The partial call identifier text of this fragment.
    pub id: String,
    /// The partial function name text of this fragment.
    pub name: String,
    /// The partial function-arguments text of this fragment.
    pub arguments: String,
}

/// An intermediary content delta.
#[derive(Debug, PartialEq)]
pub enum InterStreamChunk {
    /// A fragment of assistant-visible text.
    Content(String),
    /// A tool-call fragment, addressed to the call with this index.
    Tool(usize, InterStreamChunkTool),
}

/// An intermediary stream event.
#[derive(Debug, PartialEq)]
pub enum InterStreamEvent {
    /// The stream opened.
    Start,
    /// A content or tool-call delta.
    Chunk(InterStreamChunk),
    /// A reasoning delta.
    ReasoningChunk(InterReasoningChunk),
    /// The stream ended; carries whatever was captured.
    End(InterStreamEnd),
}

} // verus!
