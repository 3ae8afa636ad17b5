//! The provider delta decoder: classifies one parsed message document as a
//! finish signal, a content delta, a tool-call delta, a reasoning delta, or
//! a payload without per-choice content.
//!
//! A present field of the wrong shape rejects only the classification that
//! reads it, never the message: the decoder then falls through to the next
//! classification, and in the last resort to a no-content result.

use crate::assembler::{spec_fragment_of, OpenAIToolCall, ToolCallView};
use crate::chat_types::Usage;
use crate::json::Json;
use vstd::prelude::*;
use vstd::string::*;

verus! {

/// What one message document was classified as.
#[derive(Debug, PartialEq)]
pub enum ChunkDecoded {
    /// The first choice carries a finish reason: this choice is complete,
    /// but more messages follow before the end sentinel.
    Finish,
    /// A fragment of assistant-visible text.
    Content(String),
    /// One tool-call fragment.
    ToolFrag(OpenAIToolCall),
    /// A fragment of reasoning text.
    Reasoning(String),
    /// A first choice without any recognizable delta.
    NoContent,
    /// No first choice at all: the usage-only location of the base dialect.
    NoChoice,
}

/// The mathematical shape of a classification.
pub enum DecodedView {
    /// A finish signal.
    Finish,
    /// A content delta with these characters.
    Content(Seq<char>),
    /// A tool-call fragment.
    Tool(ToolCallView),
    /// A reasoning delta with these characters.
    Reasoning(Seq<char>),
    /// A first choice without any recognizable delta.
    NoContent,
    /// No first choice.
    NoChoice,
}

impl View for ChunkDecoded {
    type V = DecodedView;

    open spec fn view(&self) -> DecodedView {
        match self {
            ChunkDecoded::Finish => DecodedView::Finish,
            ChunkDecoded::Content(s) => DecodedView::Content(s@),
            ChunkDecoded::ToolFrag(f) => DecodedView::Tool(f@),
            ChunkDecoded::Reasoning(s) => DecodedView::Reasoning(s@),
            ChunkDecoded::NoContent => DecodedView::NoContent,
            ChunkDecoded::NoChoice => DecodedView::NoChoice,
        }
    }
}

/// The first choice of a message: member `choices`, element `0`, when that
/// element is there and is not null.
pub open spec fn spec_first_choice(doc: Json) -> Option<Json> {
    match doc.spec_get("choices"@) {
        Some(c) => match c.spec_at(0) {
            Some(ch) => if ch is Null {
                None
            } else {
                Some(ch)
            },
            None => None,
        },
        None => None,
    }
}

/// Whether the choice carries a finish reason: a `finish_reason` member
/// holding text. A missing or null member is never an error; some
/// providers omit it entirely while the choice is still active.
pub open spec fn spec_finish_present(choice: Json) -> bool {
    match choice.spec_get("finish_reason"@) {
        Some(v) => v is Str,
        None => false,
    }
}

/// The text under `delta`.`key`, when present and a string.
pub open spec fn spec_delta_text(choice: Json, key: Seq<char>) -> Option<Seq<char>> {
    match choice.spec_get("delta"@) {
        Some(d) => match d.spec_get(key) {
            Some(Json::Str(s)) => Some(s@),
            _ => None,
        },
        None => None,
    }
}

/// The tool-call fragment under `delta`.`tool_calls`, element `0`, when
/// that element is there, is not null, and has the fragment shape.
pub open spec fn spec_tool_delta(choice: Json) -> Option<ToolCallView> {
    match choice.spec_get("delta"@) {
        Some(d) => match d.spec_get("tool_calls"@) {
            Some(tc) => match tc.spec_at(0) {
                Some(t) => if t is Null {
                    None
                } else {
                    spec_fragment_of(t)
                },
                None => None,
            },
            None => None,
        },
        None => None,
    }
}

/// The full classification of one message document, in the decoder's
/// order: finish signal first, then content, tool, reasoning.
pub open spec fn spec_classify(doc: Json) -> DecodedView {
    match spec_first_choice(doc) {
        None => DecodedView::NoChoice,
        Some(choice) => if spec_finish_present(choice) {
            DecodedView::Finish
        } else {
            match spec_delta_text(choice, "content"@) {
                Some(s) => DecodedView::Content(s),
                None => match spec_tool_delta(choice) {
                    Some(f) => DecodedView::Tool(f),
                    None => match spec_delta_text(choice, "reasoning_content"@) {
                        Some(s) => DecodedView::Reasoning(s),
                        None => DecodedView::NoContent,
                    },
                },
            }
        },
    }
}

/// Returns the first choice of a message document.
fn first_choice<'a>(doc: &'a Json) -> (r: Option<&'a Json>)
    ensures
        (match r {
            Some(c) => spec_first_choice(*doc) == Some(*c),
            None => spec_first_choice(*doc) is None,
        }),
{
    match doc.get(&String::from_str("choices")) {
        Some(c) => match c.at(0) {
            Some(ch) => match ch {
                Json::Null => None,
                _ => Some(ch),
            },
            None => None,
        },
        None => None,
    }
}

/// Tells whether the choice carries a finish reason.
fn finish_present(choice: &Json) -> (r: bool)
    ensures
        r == spec_finish_present(*choice),
{
    match choice.get(&String::from_str("finish_reason")) {
        Some(v) => match v {
            Json::Str(_) => true,
            _ => false,
        },
        None => false,
    }
}

/// Reads the text under `delta`.`key`, as a fresh string.
fn delta_text(choice: &Json, key: &String) -> (r: Option<String>)
    ensures
        (match r {
            Some(s) => spec_delta_text(*choice, key@) == Some(s@),
            None => spec_delta_text(*choice, key@) is None,
        }),
{
    match choice.get(&String::from_str("delta")) {
        Some(d) => match d.get(key) {
            Some(v) => match v {
                Json::Str(s) => Some(s.clone()),
                _ => None,
            },
            None => None,
        },
        None => None,
    }
}

/// Reads the tool-call fragment of the choice.
fn tool_delta(choice: &Json) -> (r: Option<OpenAIToolCall>)
    ensures
        (match r {
            Some(f) => spec_tool_delta(*choice) == Some(f@),
            None => spec_tool_delta(*choice) is None,
        }),
{
    match choice.get(&String::from_str("delta")) {
        Some(d) => match d.get(&String::from_str("tool_calls")) {
            Some(tc) => match tc.at(0) {
                Some(t) => match t {
                    Json::Null => None,
                    _ => OpenAIToolCall::from_json(t),
                },
                None => None,
            },
            None => None,
        },
        None => None,
    }
}

/// Classifies one message document.
pub fn decode_chunk(doc: &Json) -> (d: ChunkDecoded)
    ensures
        d@ == spec_classify(*doc),
{
    let choice = match first_choice(doc) {
        Some(c) => c,
        None => {
            return ChunkDecoded::NoChoice;
        },
    };
    if finish_present(choice) {
        return ChunkDecoded::Finish;
    }
    match delta_text(choice, &String::from_str("content")) {
        Some(s) => {
            return ChunkDecoded::Content(s);
        },
        None => {},
    }
    match tool_delta(choice) {
        Some(f) => {
            return ChunkDecoded::ToolFrag(f);
        },
        None => {},
    }
    match delta_text(choice, &String::from_str("reasoning_content")) {
        Some(s) => {
            return ChunkDecoded::Reasoning(s);
        },
        None => {},
    }
    ChunkDecoded::NoContent
}

/// The usage document of a message: under `x_groq`.`usage` when nested,
/// under `usage` otherwise; an empty record when the path is absent.
pub open spec fn spec_take_usage(doc: Json, nested: bool) -> Usage {
    if nested {
        match doc.spec_get("x_groq"@) {
            Some(x) => match x.spec_get("usage"@) {
                Some(u) => Usage::spec_from_json(u),
                None => Usage::spec_empty(),
            },
            None => Usage::spec_empty(),
        }
    } else {
        match doc.spec_get("usage"@) {
            Some(u) => Usage::spec_from_json(u),
            None => Usage::spec_empty(),
        }
    }
}

/// Reads the usage record attached to a message, permissively: an absent
/// or misshapen field yields an empty record, never an error.
pub fn take_usage(doc: &Json, nested: bool) -> (u: Usage)
    ensures
        u == spec_take_usage(*doc, nested),
{
    if nested {
        match doc.get(&String::from_str("x_groq")) {
            Some(x) => match x.get(&String::from_str("usage")) {
                Some(u) => Usage::from_json(u),
                None => Usage::default(),
            },
            None => Usage::default(),
        }
    } else {
        match doc.get(&String::from_str("usage")) {
            Some(u) => Usage::from_json(u),
            None => Usage::default(),
        }
    }
}

} // verus!
