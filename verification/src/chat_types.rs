//! Provider identities, usage accounting, tool calls, and the stream-level
//! error type shared by the streaming pipeline.

use crate::json::Json;
use crate::json_text::ParseError;
use vstd::prelude::*;

verus! {

/// The provider family a stream is decoded for. The usage-capture location
/// is the one point where the families differ.
#[derive(Debug, Clone, Copy, PartialEq, Eq, Structural)]
pub enum AdapterKind {
    /// The base dialect: usage arrives in a dedicated payload without choices.
    OpenAI,
    /// Usage arrives with the finish signal, under the provider's own key.
    Groq,
    /// Usage arrives with the finish signal, under the generic `usage` key.
    Xai,
    /// Usage arrives with the finish signal, under the generic `usage` key.
    DeepSeek,
    /// Other OpenAI-compatible providers; they follow the base dialect.
    Ollama,
}

impl AdapterKind {
    /// True for the families that attach usage to the finish signal rather
    /// than to a trailing usage-only payload.
    pub open spec fn spec_usage_at_finish(self) -> bool {
        self is Groq || self is Xai || self is DeepSeek
    }

    /// Tells whether usage is captured at the finish signal for this family.
    pub fn usage_at_finish(&self) -> (r: bool)
        ensures
            r == self.spec_usage_at_finish(),
    {
        match self {
            AdapterKind::Groq => true,
            AdapterKind::Xai => true,
            AdapterKind::DeepSeek => true,
            _ => false,
        }
    }
}

/// The resolved model identifier a stream was opened for.
#[derive(Debug, Clone)]
pub struct ModelIden {
    /// The provider family the model resolves to.
    pub adapter_kind: AdapterKind,
    /// The model name as the caller gave it.
    pub model_name: String,
}

/// Normalized token accounting, filled from whatever the provider emitted.
#[derive(Debug, Clone, Copy, PartialEq, Eq)]
pub struct Usage {
    /// Tokens consumed by the prompt, when reported.
    pub prompt_tokens: Option<u64>,
    /// Tokens produced by the completion, when reported.
    pub completion_tokens: Option<u64>,
    /// Total tokens, when reported.
    pub total_tokens: Option<u64>,
}

impl Default for Usage {
    /// An empty usage record, with every count absent.
    fn default() -> (r: Self)
        ensures
            r == Usage::spec_empty(),
    {
        Usage { prompt_tokens: None, completion_tokens: None, total_tokens: None }
    }
}

impl Usage {
    /// The usage record with every count absent.
    pub open spec fn spec_empty() -> Usage {
        Usage { prompt_tokens: None, completion_tokens: None, total_tokens: None }
    }

    /// The usage read from a provider document: each count is taken from
    /// the field of the same name when it is an unsigned integer.
    pub open spec fn spec_from_json(doc: Json) -> Usage {
        Usage {
            prompt_tokens: spec_u64_field(doc, "prompt_tokens"@),
            completion_tokens: spec_u64_field(doc, "completion_tokens"@),
            total_tokens: spec_u64_field(doc, "total_tokens"@),
        }
    }

    /// Reads normalized usage out of a provider usage document.
    pub fn from_json(doc: &Json) -> (u: Usage)
        ensures
            u == Usage::spec_from_json(*doc),
    {
        Usage {
            prompt_tokens: u64_field(doc, &String::from_str("prompt_tokens")),
            completion_tokens: u64_field(doc, &String::from_str("completion_tokens")),
            total_tokens: u64_field(doc, &String::from_str("total_tokens")),
        }
    }
}

/// The member named `key`, when it is an unsigned integer.
pub open spec fn spec_u64_field(doc: Json, key: Seq<char>) -> Option<u64> {
    match doc.spec_get(key) {
        Some(j) => j.spec_u64(),
        None => None,
    }
}

/// Reads the member named `key` as an unsigned integer.
fn u64_field(doc: &Json, key: &String) -> (r: Option<u64>)
    ensures
        r == spec_u64_field(*doc, key@),
{
    match doc.get(key) {
        Some(j) => j.as_u64(),
        None => None,
    }
}

/// A fully assembled tool invocation, as reported at the end of a stream.
#[derive(Debug, PartialEq)]
pub struct ToolCall {
    /// The provider-assigned call identifier.
    pub call_id: String,
    /// The name of the function the model wants called.
    pub fn_name: String,
    /// The arguments parsed from the assembled JSON text; `Json::Null` when
    /// that text does not parse.
    pub fn_arguments: Json,
}

/// Assistant-visible content in its public shape.
#[derive(Debug, PartialEq)]
pub enum MessageContent {
    /// Plain text content.
    Text(String),
}

/// One part of a multi-part content value, as image responses carry them.
#[derive(Debug, Clone, PartialEq)]
pub enum ContentPart {
    /// A plain text part.
    Text(String),
    /// A generated image.
    Image {
        /// The media type of the image.
        content_type: String,
        /// Where the image data lives.
        source: ImageSource,
    },
}

/// The two ways a provider returns a generated image.
#[derive(Debug, Clone, PartialEq)]
pub enum ImageSource {
    /// A link to the image.
    Url(String),
    /// The image bytes, base64-encoded.
    Base64(String),
}

/// A stream-level failure; after one of these the stream yields nothing more.
#[derive(Debug)]
pub enum StreamError {
    /// A message payload failed structured parsing.
    StreamParse {
        /// The model the stream was opened for.
        model_iden: ModelIden,
        /// What the parse rejected.
        cause: ParseError,
    },
    /// The event source itself reported a transport failure.
    EventSource {
        /// The transport's own description of the failure.
        message: String,
    },
}

} // verus!
