//! The OpenAI-family streamer: a pull-driven state machine that takes raw
//! source events one at a time, decodes message payloads, feeds the
//! tool-call assembler, fills the capture accumulators, and emits
//! intermediary stream events. Terminal once the end sentinel is seen, the
//! source is exhausted, or a stream-level error surfaced; afterwards every
//! further drive request yields `Closed` without any need to consult the
//! source again.

use crate::assembler::{merge, opt_view, spec_merge, OpenAIToolCall, ToolCallView};
use crate::chat_types::{AdapterKind, ModelIden, StreamError, ToolCall, Usage};
use crate::decoder::{
    decode_chunk, spec_classify, spec_take_usage, take_usage, ChunkDecoded, DecodedView,
};
use crate::inter_stream::{
    InterReasoningChunk, InterStreamChunk, InterStreamChunkTool, InterStreamEnd, InterStreamEvent,
};
use crate::json::Json;
use crate::json_text::{json_parses, parse_document, ParseError};
use vstd::prelude::*;
use vstd::string::*;

verus! {

/// The four capture switches, fixed for the stream's lifetime. Each one
/// only controls whether matching deltas are retained for the terminal
/// event; every delta is emitted to the caller either way.
#[derive(Debug, Clone, Copy, PartialEq, Eq, Structural)]
pub struct CaptureOptions {
    /// Retain content deltas.
    pub capture_content: bool,
    /// Retain reasoning deltas.
    pub capture_reasoning_content: bool,
    /// Retain usage accounting.
    pub capture_usage: bool,
    /// Retain finalized tool calls.
    pub capture_tools: bool,
}

/// What a streamer was configured with.
#[derive(Debug, Clone)]
pub struct StreamerOptions {
    /// The model the stream was opened for; its provider family selects
    /// the usage-capture location.
    pub model_iden: ModelIden,
    /// The capture switches.
    pub capture: CaptureOptions,
}

/// The capture accumulators, owned by one streamer alone.
#[derive(Debug)]
pub struct StreamerCapturedData {
    /// The concatenated content deltas, once one arrived while capturing.
    pub content: Option<String>,
    /// The concatenated reasoning deltas, likewise.
    pub reasoning_content: Option<String>,
    /// The captured usage record.
    pub usage: Option<Usage>,
    /// The finalized tool calls, in flush order.
    pub tools: Vec<ToolCall>,
}

impl Default for StreamerCapturedData {
    /// Empty accumulators.
    fn default() -> (r: Self)
        ensures
            r.content is None,
            r.reasoning_content is None,
            r.usage is None,
            r.tools@.len() == 0,
    {
        StreamerCapturedData { content: None, reasoning_content: None, usage: None, tools: Vec::new() }
    }
}

/// One raw event as the transport hands it over.
#[derive(Debug, PartialEq)]
pub enum RawEvent {
    /// The connection opened.
    Open,
    /// One message payload: either the end sentinel or a JSON document.
    Message(String),
    /// The transport failed; carries its description of the failure.
    Error(String),
}

/// What one drive step yields.
#[derive(Debug)]
pub enum StreamStep {
    /// An event to hand to the caller.
    Emit(InterStreamEvent),
    /// Nothing to emit for this source event; keep pulling.
    Skip,
    /// A terminal stream error; nothing follows it.
    Fail(StreamError),
    /// The stream is over; nothing follows.
    Closed,
}

/// The concatenation of a sequence of texts, in order.
pub open spec fn concat_texts(texts: Seq<Seq<char>>) -> Seq<char>
    decreases texts.len(),
{
    if texts.len() == 0 {
        Seq::<char>::empty()
    } else {
        concat_texts(texts.drop_last()) + texts.last()
    }
}

/// The accumulated tool calls match the log of flushed partial calls.
pub open spec fn tools_match(tools: Seq<ToolCall>, log: Seq<ToolCallView>) -> bool {
    &&& tools.len() == log.len()
    &&& forall|i: int|
        0 <= i < log.len() ==> (#[trigger] tools[i]).call_id@ == log[i].id && tools[i].fn_name@
            == log[i].name
}

/// The streamer for the OpenAI-compatible provider family.
pub struct OpenAIStreamer {
    /// The configuration, immutable for the stream's lifetime.
    pub options: StreamerOptions,
    /// Whether the stream reached its terminal state.
    pub done: bool,
    /// The capture accumulators.
    pub captured_data: StreamerCapturedData,
    /// The one partially assembled tool call, when one is in flight.
    pub partial_openai_tool_call: Option<OpenAIToolCall>,
    /// Every content delta seen so far, in arrival order.
    pub content_log: Ghost<Seq<Seq<char>>>,
    /// Every reasoning delta seen so far, in arrival order.
    pub reasoning_log: Ghost<Seq<Seq<char>>>,
    /// Every flushed partial tool call, in flush order.
    pub flushed_log: Ghost<Seq<ToolCallView>>,
    /// How many times a usage record was written.
    pub usage_writes: Ghost<nat>,
}

impl OpenAIStreamer {
    /// The streamer invariant: each accumulator is empty when its capture
    /// switch is off, and mirrors the matching log when it is on.
    pub open spec fn wf(self) -> bool {
        &&& (self.options.capture.capture_content ==> (match self.captured_data.content {
            Some(c) => self.content_log@.len() > 0 && c@ == concat_texts(self.content_log@),
            None => self.content_log@.len() == 0,
        }))
        &&& (!self.options.capture.capture_content ==> self.captured_data.content is None)
        &&& (self.options.capture.capture_reasoning_content ==> (match self
            .captured_data
            .reasoning_content {
            Some(c) => self.reasoning_log@.len() > 0 && c@ == concat_texts(self.reasoning_log@),
            None => self.reasoning_log@.len() == 0,
        }))
        &&& (!self.options.capture.capture_reasoning_content ==> self
            .captured_data
            .reasoning_content is None)
        &&& (self.options.capture.capture_usage ==> (self.captured_data.usage is Some
            <==> self.usage_writes@ > 0))
        &&& (!self.options.capture.capture_usage ==> self.captured_data.usage is None)
        &&& (self.options.capture.capture_tools ==> tools_match(
            self.captured_data.tools@,
            self.flushed_log@,
        ))
        &&& (!self.options.capture.capture_tools ==> self.captured_data.tools@.len() == 0)
    }

    /// A fresh, active streamer with empty accumulators.
    pub fn new(model_iden: ModelIden, capture: CaptureOptions) -> (s: Self)
        ensures
            s.wf(),
            !s.done,
            s.options.model_iden == model_iden,
            s.options.capture == capture,
            s.captured_data.content is None,
            s.captured_data.reasoning_content is None,
            s.captured_data.usage is None,
            s.captured_data.tools@.len() == 0,
            s.partial_openai_tool_call is None,
            s.content_log@.len() == 0,
            s.reasoning_log@.len() == 0,
            s.flushed_log@.len() == 0,
            s.usage_writes@ == 0,
    {
        OpenAIStreamer {
            options: StreamerOptions { model_iden, capture },
            done: false,
            captured_data: StreamerCapturedData::default(),
            partial_openai_tool_call: None,
            content_log: Ghost(Seq::empty()),
            reasoning_log: Ghost(Seq::empty()),
            flushed_log: Ghost(Seq::empty()),
            usage_writes: Ghost(0),
        }
    }

    /// Tells whether the stream reached its terminal state.
    pub fn is_done(&self) -> (r: bool)
        ensures
            r == self.done,
    {
        self.done
    }
}

/// Everything except `done` is as it was.
pub open spec fn halted_from(pre: OpenAIStreamer, post: OpenAIStreamer) -> bool {
    &&& post.done
    &&& post.options == pre.options
    &&& post.captured_data == pre.captured_data
    &&& post.partial_openai_tool_call == pre.partial_openai_tool_call
    &&& post.content_log == pre.content_log
    &&& post.reasoning_log == pre.reasoning_log
    &&& post.flushed_log == pre.flushed_log
    &&& post.usage_writes == pre.usage_writes
}

/// The content accumulators are as they were.
pub open spec fn same_content(pre: OpenAIStreamer, post: OpenAIStreamer) -> bool {
    &&& post.captured_data.content == pre.captured_data.content
    &&& post.content_log == pre.content_log
}

/// The reasoning accumulators are as they were.
pub open spec fn same_reasoning(pre: OpenAIStreamer, post: OpenAIStreamer) -> bool {
    &&& post.captured_data.reasoning_content == pre.captured_data.reasoning_content
    &&& post.reasoning_log == pre.reasoning_log
}

/// The usage accumulators are as they were.
pub open spec fn same_usage(pre: OpenAIStreamer, post: OpenAIStreamer) -> bool {
    &&& post.captured_data.usage == pre.captured_data.usage
    &&& post.usage_writes == pre.usage_writes
}

/// The tool accumulators are as they were.
pub open spec fn same_tools(pre: OpenAIStreamer, post: OpenAIStreamer) -> bool {
    &&& post.captured_data.tools == pre.captured_data.tools
    &&& post.partial_openai_tool_call == pre.partial_openai_tool_call
    &&& post.flushed_log == pre.flushed_log
}

/// The usage written at a finish signal: nested under the provider's own
/// key for the one family that hides it there, under `usage` otherwise.
pub open spec fn spec_finish_usage(doc: Json, kind: AdapterKind) -> Usage {
    spec_take_usage(doc, kind is Groq)
}

/// The effect of a finish signal: no event, and usage written for the
/// families that attach usage to the finish signal, when capturing.
pub open spec fn finish_step(pre: OpenAIStreamer, post: OpenAIStreamer, doc: Json) -> bool {
    &&& same_content(pre, post)
    &&& same_reasoning(pre, post)
    &&& same_tools(pre, post)
    &&& if pre.options.capture.capture_usage
        && pre.options.model_iden.adapter_kind.spec_usage_at_finish() {
        &&& post.captured_data.usage == Some(
            spec_finish_usage(doc, pre.options.model_iden.adapter_kind),
        )
        &&& post.usage_writes@ == pre.usage_writes@ + 1
    } else {
        same_usage(pre, post)
    }
}

/// The effect of a payload without per-choice content: no event, and for
/// the base dialect the first usage record is written, when capturing.
pub open spec fn usage_only_step(pre: OpenAIStreamer, post: OpenAIStreamer, doc: Json) -> bool {
    &&& same_content(pre, post)
    &&& same_reasoning(pre, post)
    &&& same_tools(pre, post)
    &&& if !pre.options.model_iden.adapter_kind.spec_usage_at_finish()
        && pre.captured_data.usage is None && pre.options.capture.capture_usage {
        &&& post.captured_data.usage == Some(spec_take_usage(doc, false))
        &&& post.usage_writes@ == pre.usage_writes@ + 1
    } else {
        same_usage(pre, post)
    }
}

/// The effect of a content delta: the delta is emitted as a chunk, logged,
/// and appended to the content accumulator when capturing.
pub open spec fn content_step(
    pre: OpenAIStreamer,
    post: OpenAIStreamer,
    s: Seq<char>,
    r: StreamStep,
) -> bool {
    &&& same_reasoning(pre, post)
    &&& same_usage(pre, post)
    &&& same_tools(pre, post)
    &&& (r matches StreamStep::Emit(InterStreamEvent::Chunk(InterStreamChunk::Content(c)))
        && c@ == s)
    &&& post.content_log@ =~= pre.content_log@.push(s)
    &&& if pre.options.capture.capture_content {
        post.captured_data.content matches Some(c) && c@ == (match pre.captured_data.content {
            Some(c0) => c0@,
            None => Seq::<char>::empty(),
        }) + s
    } else {
        post.captured_data.content == pre.captured_data.content
    }
}

/// The effect of a reasoning delta, the mirror image of a content delta.
pub open spec fn reasoning_step(
    pre: OpenAIStreamer,
    post: OpenAIStreamer,
    s: Seq<char>,
    r: StreamStep,
) -> bool {
    &&& same_content(pre, post)
    &&& same_usage(pre, post)
    &&& same_tools(pre, post)
    &&& (r matches StreamStep::Emit(
        InterStreamEvent::ReasoningChunk(InterReasoningChunk::Content(c)),
    ) && c@ == s)
    &&& post.reasoning_log@ =~= pre.reasoning_log@.push(s)
    &&& if pre.options.capture.capture_reasoning_content {
        post.captured_data.reasoning_content matches Some(c) && c@ == (match pre
            .captured_data
            .reasoning_content {
            Some(c0) => c0@,
            None => Seq::<char>::empty(),
        }) + s
    } else {
        post.captured_data.reasoning_content == pre.captured_data.reasoning_content
    }
}

/// The effect of a tool-call delta: the incoming fragment is emitted as a
/// chunk whatever the merge outcome; the assembler merges it into the held
/// partial call; a flushed call is recorded in the accumulator as a side
/// effect, when capturing, never as its own event.
pub open spec fn tool_step(
    pre: OpenAIStreamer,
    post: OpenAIStreamer,
    f: ToolCallView,
    r: StreamStep,
) -> bool {
    &&& same_content(pre, post)
    &&& same_reasoning(pre, post)
    &&& same_usage(pre, post)
    &&& (r matches StreamStep::Emit(
        InterStreamEvent::Chunk(InterStreamChunk::Tool(idx, t)),
    ) && idx as int == f.index && t.id@ == f.id && t.name@ == f.name && t.arguments@
        == f.arguments)
    &&& opt_view(post.partial_openai_tool_call) == spec_merge(
        opt_view(pre.partial_openai_tool_call),
        f,
    ).0
    &&& (match spec_merge(opt_view(pre.partial_openai_tool_call), f).1 {
        Some(flushed) => {
            &&& post.flushed_log@ =~= pre.flushed_log@.push(flushed)
            &&& if pre.options.capture.capture_tools {
                &&& post.captured_data.tools@.len() == pre.captured_data.tools@.len() + 1
                &&& post.captured_data.tools@.subrange(
                    0,
                    pre.captured_data.tools@.len() as int,
                ) =~= pre.captured_data.tools@
                &&& post.captured_data.tools@.last().call_id@ == flushed.id
                &&& post.captured_data.tools@.last().fn_name@ == flushed.name
            } else {
                post.captured_data.tools == pre.captured_data.tools
            }
        },
        None => {
            &&& post.flushed_log == pre.flushed_log
            &&& post.captured_data.tools == pre.captured_data.tools
        },
    })
}

/// The effect of one parsed, non-sentinel message document on the
/// streamer, by the document's classification.
pub open spec fn doc_step(
    pre: OpenAIStreamer,
    post: OpenAIStreamer,
    doc: Json,
    r: StreamStep,
) -> bool {
    &&& !post.done
    &&& post.options == pre.options
    &&& (match spec_classify(doc) {
        DecodedView::NoChoice => r is Skip && usage_only_step(pre, post, doc),
        DecodedView::Finish => r is Skip && finish_step(pre, post, doc),
        DecodedView::Content(s) => content_step(pre, post, s, r),
        DecodedView::Tool(f) => tool_step(pre, post, f, r),
        DecodedView::Reasoning(s) => reasoning_step(pre, post, s, r),
        DecodedView::NoContent => r is Skip && post == pre,
    })
}

/// The effect of the end sentinel: the terminal event carries the moved
/// accumulators — each present only as its capture switch allowed — with a
/// still-held partial call finalized and flushed exactly once first; the
/// streamer is terminal and holds empty state afterwards.
pub open spec fn end_step(pre: OpenAIStreamer, post: OpenAIStreamer, r: StreamStep) -> bool {
    &&& post.done
    &&& post.options == pre.options
    &&& post.captured_data.content is None
    &&& post.captured_data.reasoning_content is None
    &&& post.captured_data.usage is None
    &&& post.captured_data.tools@.len() == 0
    &&& post.partial_openai_tool_call is None
    &&& (r matches StreamStep::Emit(InterStreamEvent::End(e)) && {
        &&& e.captured_usage == (if pre.options.capture.capture_usage {
            pre.captured_data.usage
        } else {
            None::<Usage>
        })
        &&& e.captured_content == pre.captured_data.content
        &&& e.captured_reasoning_content == pre.captured_data.reasoning_content
        &&& (match pre.partial_openai_tool_call {
            Some(p) => if pre.options.capture.capture_tools {
                &&& e.captured_tools@.len() == pre.captured_data.tools@.len() + 1
                &&& e.captured_tools@.subrange(
                    0,
                    pre.captured_data.tools@.len() as int,
                ) =~= pre.captured_data.tools@
                &&& e.captured_tools@.last().call_id@ == p.id@
                &&& e.captured_tools@.last().fn_name@ == p.function.name@
            } else {
                e.captured_tools@ =~= pre.captured_data.tools@
            },
            None => e.captured_tools@ =~= pre.captured_data.tools@,
        })
    })
}

impl OpenAIStreamer {
    /// Applies one parsed message document to the streamer. Verified for
    /// every document value, whatever the outside parser produced it from.
    pub fn handle_doc(&mut self, doc: &Json) -> (r: StreamStep)
        requires
            old(self).wf(),
            !old(self).done,
        ensures
            final(self).wf(),
            doc_step(*old(self), *final(self), *doc, r),
    {
        match decode_chunk(doc) {
            ChunkDecoded::Finish => {
                if self.options.capture.capture_usage
                    && self.options.model_iden.adapter_kind.usage_at_finish() {
                    let nested = self.options.model_iden.adapter_kind == AdapterKind::Groq;
                    let u = take_usage(doc, nested);
                    self.captured_data.usage = Some(u);
                    self.usage_writes = Ghost(self.usage_writes@ + 1);
                }
                StreamStep::Skip
            },
            ChunkDecoded::Content(s) => {
                if self.options.capture.capture_content {
                    let grown = match self.captured_data.content.take() {
                        Some(mut c) => {
                            c.append(s.as_str());
                            c
                        },
                        None => s.clone(),
                    };
                    self.captured_data.content = Some(grown);
                }
                self.content_log = Ghost(self.content_log@.push(s@));
                proof {
                    let newlog = self.content_log@;
                    let oldlog = old(self).content_log@;
                    assert(newlog.drop_last() =~= oldlog);
                    assert(newlog.last() == s@);
                    assert(concat_texts(newlog) == concat_texts(newlog.drop_last())
                        + newlog.last());
                    assert(concat_texts(newlog) == concat_texts(oldlog) + s@);
                    if oldlog.len() == 0 {
                        assert(concat_texts(oldlog) == Seq::<char>::empty());
                        assert(Seq::<char>::empty() + s@ =~= s@);
                    }
                }
                StreamStep::Emit(InterStreamEvent::Chunk(InterStreamChunk::Content(s)))
            },
            ChunkDecoded::ToolFrag(f) => {
                let incoming = f.duplicate();
                let held = self.partial_openai_tool_call.take();
                let (new_held, flushed) = merge(held, f);
                self.partial_openai_tool_call = new_held;
                match flushed {
                    Some(p) => {
                        let ghost pv = p@;
                        self.flushed_log = Ghost(self.flushed_log@.push(pv));
                        if self.options.capture.capture_tools {
                            let t = p.finalize();
                            self.captured_data.tools.push(t);
                            proof {
                                let newt = self.captured_data.tools@;
                                let oldt = old(self).captured_data.tools@;
                                assert(newt.subrange(0, oldt.len() as int) =~= oldt);
                                assert(newt.last() == t);
                                assert forall|i: int|
                                    0 <= i < self.flushed_log@.len() implies (#[trigger] newt[i])
                                    .call_id@ == self.flushed_log@[i].id && newt[i].fn_name@
                                    == self.flushed_log@[i].name by {
                                    if i < oldt.len() {
                                        assert(newt[i] == oldt[i]);
                                        assert(oldt[i].call_id@ == old(self).flushed_log@[i].id);
                                        assert(self.flushed_log@[i] == old(self).flushed_log@[i]);
                                    } else {
                                        assert(newt[i] == t);
                                        assert(self.flushed_log@[i] == pv);
                                    }
                                }
                            }
                        }
                    },
                    None => {},
                }
                StreamStep::Emit(InterStreamEvent::Chunk(InterStreamChunk::from(incoming)))
            },
            ChunkDecoded::Reasoning(s) => {
                if self.options.capture.capture_reasoning_content {
                    let grown = match self.captured_data.reasoning_content.take() {
                        Some(mut c) => {
                            c.append(s.as_str());
                            c
                        },
                        None => s.clone(),
                    };
                    self.captured_data.reasoning_content = Some(grown);
                }
                self.reasoning_log = Ghost(self.reasoning_log@.push(s@));
                proof {
                    let newlog = self.reasoning_log@;
                    let oldlog = old(self).reasoning_log@;
                    assert(newlog.drop_last() =~= oldlog);
                    assert(newlog.last() == s@);
                    assert(concat_texts(newlog) == concat_texts(newlog.drop_last())
                        + newlog.last());
                    assert(concat_texts(newlog) == concat_texts(oldlog) + s@);
                    if oldlog.len() == 0 {
                        assert(concat_texts(oldlog) == Seq::<char>::empty());
                        assert(Seq::<char>::empty() + s@ =~= s@);
                    }
                }
                StreamStep::Emit(
                    InterStreamEvent::ReasoningChunk(InterReasoningChunk::Content(s)),
                )
            },
            ChunkDecoded::NoContent => StreamStep::Skip,
            ChunkDecoded::NoChoice => {
                if !self.options.model_iden.adapter_kind.usage_at_finish()
                    && self.captured_data.usage.is_none() && self.options.capture.capture_usage {
                    let u = take_usage(doc, false);
                    self.captured_data.usage = Some(u);
                    self.usage_writes = Ghost(self.usage_writes@ + 1);
                }
                StreamStep::Skip
            },
        }
    }

    /// Handles the end sentinel: flushes a still-held partial call, moves
    /// the accumulators out into the terminal event, and becomes terminal.
    fn end_stream(&mut self) -> (r: StreamStep)
        requires
            old(self).wf(),
            !old(self).done,
        ensures
            final(self).wf(),
            end_step(*old(self), *final(self), r),
    {
        self.done = true;
        let captured_usage = if self.options.capture.capture_usage {
            self.captured_data.usage.take()
        } else {
            None
        };
        let held = self.partial_openai_tool_call.take();
        if self.options.capture.capture_tools {
            match held {
                Some(p) => {
                    let t = p.finalize();
                    self.captured_data.tools.push(t);
                    proof {
                        assert(self.captured_data.tools@.subrange(
                            0,
                            old(self).captured_data.tools@.len() as int,
                        ) =~= old(self).captured_data.tools@);
                    }
                },
                None => {},
            }
        }
        let mut tools: Vec<ToolCall> = Vec::new();
        core::mem::swap(&mut tools, &mut self.captured_data.tools);
        let captured_content = self.captured_data.content.take();
        let captured_reasoning_content = self.captured_data.reasoning_content.take();
        self.content_log = Ghost(Seq::empty());
        self.reasoning_log = Ghost(Seq::empty());
        self.flushed_log = Ghost(Seq::empty());
        self.usage_writes = Ghost(0);
        StreamStep::Emit(
            InterStreamEvent::End(
                InterStreamEnd {
                    captured_usage,
                    captured_content,
                    captured_reasoning_content,
                    captured_tools: tools,
                },
            ),
        )
    }

    /// One drive step: takes the next raw source event — `None` when the
    /// source is exhausted — and yields what the caller should see.
    ///
    /// Once terminal, the step yields `Closed` whatever is passed and
    /// changes nothing, so a driver need never consult the source again.
    /// The end sentinel makes the streamer terminal exactly once, with the
    /// terminal event. A non-sentinel payload that is not well-formed JSON
    /// fails with the parse error — emitting nothing and changing nothing
    /// else — and makes the streamer terminal, as a transport error and an
    /// exhausted source do, so no message after a failure is ever
    /// consumed.
    pub fn drive(&mut self, ev: Option<RawEvent>) -> (r: StreamStep)
        requires
            old(self).wf(),
        ensures
            final(self).wf(),
            old(self).done ==> r is Closed && *final(self) == *old(self),
            !old(self).done ==> (match ev {
                None => r is Closed && halted_from(*old(self), *final(self)),
                Some(RawEvent::Open) => r == StreamStep::Emit(InterStreamEvent::Start)
                    && *final(self) == *old(self),
                Some(RawEvent::Error(message)) => r == StreamStep::Fail(
                    StreamError::EventSource { message },
                ) && halted_from(*old(self), *final(self)),
                Some(RawEvent::Message(payload)) => if payload@ == "[DONE]"@ {
                    end_step(*old(self), *final(self), r)
                } else {
                    &&& (!json_parses(payload@) ==> (r matches StreamStep::Fail(
                        StreamError::StreamParse { cause: ParseError::Syntax(_), .. },
                    )) && halted_from(*old(self), *final(self)))
                    &&& (json_parses(payload@) ==> ((r matches StreamStep::Fail(
                        StreamError::StreamParse { cause: ParseError::TooDeep, .. },
                    ) && halted_from(*old(self), *final(self))) || (exists|doc: Json|
                        #[trigger] doc_step(*old(self), *final(self), doc, r))))
                },
            }),
    {
        if self.done {
            return StreamStep::Closed;
        }
        match ev {
            None => {
                self.done = true;
                StreamStep::Closed
            },
            Some(RawEvent::Open) => StreamStep::Emit(InterStreamEvent::Start),
            Some(RawEvent::Error(message)) => {
                self.done = true;
                StreamStep::Fail(StreamError::EventSource { message })
            },
            Some(RawEvent::Message(payload)) => {
                let sentinel: String = String::from_str("[DONE]");
                if payload == sentinel {
                    self.end_stream()
                } else {
                    match parse_document(payload.as_str()) {
                        Ok(doc) => {
                            let r = self.handle_doc(&doc);
                            proof {
                                assert(doc_step(*old(self), *self, doc, r));
                            }
                            r
                        },
                        Err(cause) => {
                            self.done = true;
                            StreamStep::Fail(
                                StreamError::StreamParse {
                                    model_iden: self.options.model_iden.clone(),
                                    cause,
                                },
                            )
                        },
                    }
                }
            },
        }
    }
}

/// A capture switch is necessary and sufficient for its accumulator to be
/// populated: with the switch on, the accumulator is present exactly when
/// at least one matching delta — or usage write — was observed; with the
/// switch off it stays absent however many matching deltas were observed
/// (and individually emitted).
pub proof fn lemma_capture_gates(s: OpenAIStreamer)
    requires
        s.wf(),
    ensures
        s.captured_data.content is Some <==> (s.options.capture.capture_content
            && s.content_log@.len() > 0),
        s.captured_data.reasoning_content is Some <==> (s.options.capture.capture_reasoning_content
            && s.reasoning_log@.len() > 0),
        s.captured_data.usage is Some <==> (s.options.capture.capture_usage && s.usage_writes@
            > 0),
        s.captured_data.tools@.len() > 0 <==> (s.options.capture.capture_tools
            && s.flushed_log@.len() > 0),
{
}

/// The same gating read off the terminal event itself: each captured field
/// of the end summary is populated exactly when its capture switch was on
/// and matching data was observed — for tool calls, a flushed call or a
/// still-held partial call at the moment the end sentinel arrived.
pub proof fn lemma_end_capture_gates(pre: OpenAIStreamer, post: OpenAIStreamer, r: StreamStep)
    requires
        pre.wf(),
        end_step(pre, post, r),
    ensures
        (r matches StreamStep::Emit(InterStreamEvent::End(e)) && {
            &&& (e.captured_content is Some <==> pre.options.capture.capture_content
                && pre.content_log@.len() > 0)
            &&& (e.captured_reasoning_content is Some
                <==> pre.options.capture.capture_reasoning_content && pre.reasoning_log@.len()
                > 0)
            &&& (e.captured_usage is Some <==> pre.options.capture.capture_usage
                && pre.usage_writes@ > 0)
            &&& (e.captured_tools@.len() > 0 <==> pre.options.capture.capture_tools && (
            pre.flushed_log@.len() > 0 || pre.partial_openai_tool_call is Some))
        }),
{
}

} // verus!
