//! The public chat stream vocabulary, and the 1:1 relay from the
//! intermediary event algebra into it. The relay neither buffers nor
//! reorders: each intermediary event maps to exactly one public event.

use crate::chat_types::{MessageContent, ToolCall, Usage};
use crate::inter_stream::{
    InterReasoningChunk, InterStreamChunk, InterStreamEnd, InterStreamEvent,
};
use vstd::prelude::*;
use vstd::std_specs::convert::FromSpec;

verus! {

/// The normalized chat stream event any provider family resolves to.
#[derive(Debug, PartialEq)]
pub enum ChatStreamEvent {
    /// The start of the stream; the first event.
    Start,
    /// One content chunk or tool-call chunk.
    Chunk(StreamChunk),
    /// One reasoning chunk.
    ReasoningChunk(StreamReasoningChunk),
    /// The end of the stream, carrying whatever capture retained.
    End(StreamEnd),
}

/// The public reasoning chunk; for now it only carries text.
#[derive(Debug, PartialEq)]
pub enum StreamReasoningChunk {
    /// The reasoning text of this chunk.
    Content(String),
}

/// The tool part of a public chunk.
#[derive(Debug, PartialEq)]
pub struct StreamToolChunk {
    /// The partial tool id text.
    pub id: String,
    /// The partial tool name text.
    pub name: String,
    /// The partial tool arguments text.
    pub arguments: String,
}

/// Content of a public `Chunk` event: text, or a tool-call part.
#[derive(Debug, PartialEq)]
pub enum StreamChunk {
    /// The content text.
    Content(String),
    /// A tool-call fragment addressed to the call with this index.
    Tool(usize, StreamToolChunk),
}

/// What the stream captured, in the public vocabulary.
#[derive(Debug, PartialEq)]
pub struct StreamEnd {
    /// The captured usage, when usage capture was on.
    pub captured_usage: Option<Usage>,
    /// The captured full content, when content capture was on.
    pub captured_content: Option<MessageContent>,
    /// The captured reasoning text, when reasoning capture was on.
    pub captured_reasoning_content: Option<String>,
    /// The captured tool calls, when tool capture was on.
    pub captured_tools: Vec<ToolCall>,
}

impl Default for StreamEnd {
    /// An end summary with nothing captured.
    fn default() -> (r: Self)
        ensures
            r.captured_usage is None,
            r.captured_content is None,
            r.captured_reasoning_content is None,
            r.captured_tools@.len() == 0,
    {
        StreamEnd {
            captured_usage: None,
            captured_content: None,
            captured_reasoning_content: None,
            captured_tools: Vec::new(),
        }
    }
}

impl From<InterStreamEnd> for StreamEnd {
    /// Moves an intermediary end over, lifting the raw captured content
    /// string into the public content representation.
    fn from(inter_end: InterStreamEnd) -> (r: Self) {
        let captured_content = match inter_end.captured_content {
            Some(c) => Some(MessageContent::Text(c)),
            None => None,
        };
        StreamEnd {
            captured_usage: inter_end.captured_usage,
            captured_content,
            captured_reasoning_content: inter_end.captured_reasoning_content,
            captured_tools: inter_end.captured_tools,
        }
    }
}

impl vstd::std_specs::convert::FromSpecImpl<InterStreamEnd> for StreamEnd {
    open spec fn obeys_from_spec() -> bool {
        true
    }

    open spec fn from_spec(inter_end: InterStreamEnd) -> Self {
        StreamEnd {
            captured_usage: inter_end.captured_usage,
            captured_content: match inter_end.captured_content {
                Some(c) => Some(MessageContent::Text(c)),
                None => None,
            },
            captured_reasoning_content: inter_end.captured_reasoning_content,
            captured_tools: inter_end.captured_tools,
        }
    }
}

impl From<InterReasoningChunk> for StreamReasoningChunk {
    /// Moves an intermediary reasoning chunk over.
    fn from(value: InterReasoningChunk) -> (r: Self) {
        match value {
            InterReasoningChunk::Content(content) => StreamReasoningChunk::Content(content),
        }
    }
}

impl vstd::std_specs::convert::FromSpecImpl<InterReasoningChunk> for StreamReasoningChunk {
    open spec fn obeys_from_spec() -> bool {
        true
    }

    open spec fn from_spec(value: InterReasoningChunk) -> Self {
        match value {
            InterReasoningChunk::Content(content) => StreamReasoningChunk::Content(content),
        }
    }
}

impl From<InterStreamChunk> for StreamChunk {
    /// Moves an intermediary chunk over, field by field.
    fn from(value: InterStreamChunk) -> (r: Self) {
        match value {
            InterStreamChunk::Content(content) => StreamChunk::Content(content),
            InterStreamChunk::Tool(index, tool) => StreamChunk::Tool(
                index,
                StreamToolChunk { id: tool.id, name: tool.name, arguments: tool.arguments },
            ),
        }
    }
}

impl vstd::std_specs::convert::FromSpecImpl<InterStreamChunk> for StreamChunk {
    open spec fn obeys_from_spec() -> bool {
        true
    }

    open spec fn from_spec(value: InterStreamChunk) -> Self {
        match value {
            InterStreamChunk::Content(content) => StreamChunk::Content(content),
            InterStreamChunk::Tool(index, tool) => StreamChunk::Tool(
                index,
                StreamToolChunk { id: tool.id, name: tool.name, arguments: tool.arguments },
            ),
        }
    }
}

/// The 1:1 mapping from an intermediary event to the public event.
pub open spec fn spec_translate_event(ev: InterStreamEvent) -> ChatStreamEvent {
    match ev {
        InterStreamEvent::Start => ChatStreamEvent::Start,
        InterStreamEvent::Chunk(c) => ChatStreamEvent::Chunk(StreamChunk::from_spec(c)),
        InterStreamEvent::ReasoningChunk(c) => ChatStreamEvent::ReasoningChunk(
            StreamReasoningChunk::from_spec(c),
        ),
        InterStreamEvent::End(e) => ChatStreamEvent::End(StreamEnd::from_spec(e)),
    }
}

/// Relays one intermediary event into the public vocabulary.
pub fn translate_event(ev: InterStreamEvent) -> (r: ChatStreamEvent)
    ensures
        r == spec_translate_event(ev),
{
    match ev {
        InterStreamEvent::Start => ChatStreamEvent::Start,
        InterStreamEvent::Chunk(content) => ChatStreamEvent::Chunk(StreamChunk::from(content)),
        InterStreamEvent::ReasoningChunk(content) => ChatStreamEvent::ReasoningChunk(
            StreamReasoningChunk::from(content),
        ),
        InterStreamEvent::End(inter_end) => ChatStreamEvent::End(StreamEnd::from(inter_end)),
    }
}

} // verus!
