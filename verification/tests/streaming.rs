//! End-to-end streamer scenarios over raw source events.

use llm_stream::chat_types::{AdapterKind, ModelIden, StreamError, Usage};
use llm_stream::inter_stream::{InterStreamChunk, InterStreamEnd, InterStreamEvent};
use llm_stream::json::Json;
use llm_stream::streamer::{CaptureOptions, OpenAIStreamer, RawEvent, StreamStep};

fn model(kind: AdapterKind) -> ModelIden {
    ModelIden { adapter_kind: kind, model_name: "test-model".to_string() }
}

fn streamer(kind: AdapterKind, capture: CaptureOptions) -> OpenAIStreamer {
    OpenAIStreamer::new(model(kind), capture)
}

fn capture_none() -> CaptureOptions {
    CaptureOptions {
        capture_content: false,
        capture_reasoning_content: false,
        capture_usage: false,
        capture_tools: false,
    }
}

fn msg(text: &str) -> Option<RawEvent> {
    Some(RawEvent::Message(text.to_string()))
}

fn expect_emit(step: StreamStep) -> InterStreamEvent {
    match step {
        StreamStep::Emit(ev) => ev,
        other => panic!("expected an emitted event, got {:?}", other),
    }
}

fn expect_end(step: StreamStep) -> InterStreamEnd {
    match expect_emit(step) {
        InterStreamEvent::End(e) => e,
        other => panic!("expected the end event, got {:?}", other),
    }
}

fn expect_skip(step: StreamStep) {
    match step {
        StreamStep::Skip => {}
        other => panic!("expected a skip, got {:?}", other),
    }
}

#[test]
fn content_and_usage_capture_scenario() {
    let mut capture = capture_none();
    capture.capture_content = true;
    capture.capture_usage = true;
    let mut s = streamer(AdapterKind::OpenAI, capture);

    assert_eq!(expect_emit(s.drive(Some(RawEvent::Open))), InterStreamEvent::Start);
    assert_eq!(
        expect_emit(s.drive(msg(r#"{"choices":[{"delta":{"content":"Hi"}}]}"#))),
        InterStreamEvent::Chunk(InterStreamChunk::Content("Hi".to_string()))
    );
    assert_eq!(
        expect_emit(s.drive(msg(r#"{"choices":[{"delta":{"content":" there"}}]}"#))),
        InterStreamEvent::Chunk(InterStreamChunk::Content(" there".to_string()))
    );
    expect_skip(s.drive(msg(r#"{"usage":{"total_tokens":5}}"#)));
    let end = expect_end(s.drive(msg("[DONE]")));
    assert_eq!(end.captured_content, Some("Hi there".to_string()));
    assert_eq!(
        end.captured_usage,
        Some(Usage { prompt_tokens: None, completion_tokens: None, total_tokens: Some(5) })
    );
    assert_eq!(end.captured_reasoning_content, None);
    assert!(end.captured_tools.is_empty());
}

#[test]
fn tool_fragments_scenario() {
    let mut capture = capture_none();
    capture.capture_tools = true;
    let mut s = streamer(AdapterKind::OpenAI, capture);

    let first = expect_emit(s.drive(msg(
        r#"{"choices":[{"delta":{"tool_calls":[{"index":0,"id":"c1","function":{"name":"get_weather","arguments":""}}]}}]}"#,
    )));
    match first {
        InterStreamEvent::Chunk(InterStreamChunk::Tool(0, t)) => {
            assert_eq!(t.id, "c1");
            assert_eq!(t.name, "get_weather");
            assert_eq!(t.arguments, "");
        }
        other => panic!("expected a tool chunk, got {:?}", other),
    }
    expect_emit(s.drive(msg(
        r#"{"choices":[{"delta":{"tool_calls":[{"index":0,"function":{"arguments":"{\"c\":1}"}}]}}]}"#,
    )));
    expect_emit(s.drive(msg(
        r#"{"choices":[{"delta":{"tool_calls":[{"index":1,"id":"c2","function":{"name":"other_tool","arguments":"{}"}}]}}]}"#,
    )));
    let end = expect_end(s.drive(msg("[DONE]")));
    assert_eq!(end.captured_tools.len(), 2);
    assert_eq!(end.captured_tools[0].call_id, "c1");
    assert_eq!(end.captured_tools[0].fn_name, "get_weather");
    assert_eq!(
        end.captured_tools[0].fn_arguments,
        Json::Obj(vec![("c".to_string(), Json::UInt(1))])
    );
    assert_eq!(end.captured_tools[1].call_id, "c2");
    assert_eq!(end.captured_tools[1].fn_name, "other_tool");
    assert_eq!(end.captured_tools[1].fn_arguments, Json::Obj(vec![]));
}

#[test]
fn capture_disabled_leaves_end_empty() {
    let mut s = streamer(AdapterKind::OpenAI, capture_none());
    expect_emit(s.drive(msg(r#"{"choices":[{"delta":{"content":"Hi"}}]}"#)));
    expect_emit(s.drive(msg(
        r#"{"choices":[{"delta":{"tool_calls":[{"index":0,"id":"c1"}]}}]}"#,
    )));
    expect_emit(s.drive(msg(
        r#"{"choices":[{"delta":{"tool_calls":[{"index":1,"id":"c2"}]}}]}"#,
    )));
    expect_skip(s.drive(msg(r#"{"usage":{"total_tokens":9}}"#)));
    let end = expect_end(s.drive(msg("[DONE]")));
    assert_eq!(end.captured_content, None);
    assert_eq!(end.captured_usage, None);
    assert_eq!(end.captured_reasoning_content, None);
    assert!(end.captured_tools.is_empty());
}

#[test]
fn reasoning_capture_scenario() {
    let mut capture = capture_none();
    capture.capture_reasoning_content = true;
    let mut s = streamer(AdapterKind::DeepSeek, capture);
    let ev = expect_emit(s.drive(msg(
        r#"{"choices":[{"delta":{"reasoning_content":"thinking"}}]}"#,
    )));
    match ev {
        InterStreamEvent::ReasoningChunk(_) => {}
        other => panic!("expected a reasoning chunk, got {:?}", other),
    }
    expect_emit(s.drive(msg(r#"{"choices":[{"delta":{"reasoning_content":" more"}}]}"#)));
    let end = expect_end(s.drive(msg("[DONE]")));
    assert_eq!(end.captured_reasoning_content, Some("thinking more".to_string()));
}

#[test]
fn terminal_state_is_sticky() {
    let mut s = streamer(AdapterKind::OpenAI, capture_none());
    expect_end(s.drive(msg("[DONE]")));
    assert!(s.is_done());
    assert!(matches!(s.drive(msg(r#"{"choices":[{"delta":{"content":"late"}}]}"#)), StreamStep::Closed));
    assert!(matches!(s.drive(Some(RawEvent::Open)), StreamStep::Closed));
    assert!(matches!(s.drive(None), StreamStep::Closed));
}

#[test]
fn decode_failure_halts_the_stream() {
    let mut s = streamer(AdapterKind::OpenAI, capture_none());
    let step = s.drive(msg("this is not json"));
    match step {
        StreamStep::Fail(StreamError::StreamParse { model_iden, .. }) => {
            assert_eq!(model_iden.model_name, "test-model");
        }
        other => panic!("expected a parse failure, got {:?}", other),
    }
    assert!(s.is_done());
    assert!(matches!(s.drive(msg(r#"{"choices":[{"delta":{"content":"x"}}]}"#)), StreamStep::Closed));
}

#[test]
fn transport_error_halts_the_stream() {
    let mut s = streamer(AdapterKind::OpenAI, capture_none());
    let step = s.drive(Some(RawEvent::Error("connection reset".to_string())));
    match step {
        StreamStep::Fail(StreamError::EventSource { message }) => {
            assert_eq!(message, "connection reset");
        }
        other => panic!("expected a transport failure, got {:?}", other),
    }
    assert!(s.is_done());
    assert!(matches!(s.drive(Some(RawEvent::Open)), StreamStep::Closed));
}

#[test]
fn exhausted_source_closes_without_error() {
    let mut s = streamer(AdapterKind::OpenAI, capture_none());
    expect_emit(s.drive(msg(r#"{"choices":[{"delta":{"content":"x"}}]}"#)));
    assert!(matches!(s.drive(None), StreamStep::Closed));
    assert!(s.is_done());
}

#[test]
fn groq_usage_is_captured_at_finish_under_its_own_key() {
    let mut capture = capture_none();
    capture.capture_usage = true;
    let mut s = streamer(AdapterKind::Groq, capture);
    expect_skip(s.drive(msg(
        r#"{"choices":[{"delta":{},"finish_reason":"stop"}],"x_groq":{"usage":{"prompt_tokens":2,"completion_tokens":3,"total_tokens":5}}}"#,
    )));
    let end = expect_end(s.drive(msg("[DONE]")));
    assert_eq!(
        end.captured_usage,
        Some(Usage {
            prompt_tokens: Some(2),
            completion_tokens: Some(3),
            total_tokens: Some(5),
        })
    );
}

#[test]
fn xai_usage_is_captured_at_finish_under_the_generic_key() {
    let mut capture = capture_none();
    capture.capture_usage = true;
    let mut s = streamer(AdapterKind::Xai, capture);
    expect_skip(s.drive(msg(
        r#"{"choices":[{"delta":{},"finish_reason":"stop"}],"usage":{"prompt_tokens":1,"completion_tokens":1,"total_tokens":2}}"#,
    )));
    let end = expect_end(s.drive(msg("[DONE]")));
    assert_eq!(
        end.captured_usage,
        Some(Usage {
            prompt_tokens: Some(1),
            completion_tokens: Some(1),
            total_tokens: Some(2),
        })
    );
}

#[test]
fn base_dialect_ignores_usage_at_finish() {
    let mut capture = capture_none();
    capture.capture_usage = true;
    let mut s = streamer(AdapterKind::OpenAI, capture);
    expect_skip(s.drive(msg(
        r#"{"choices":[{"delta":{},"finish_reason":"stop"}],"usage":{"total_tokens":7}}"#,
    )));
    expect_skip(s.drive(msg(r#"{"usage":{"total_tokens":8}}"#)));
    let end = expect_end(s.drive(msg("[DONE]")));
    assert_eq!(end.captured_usage.unwrap().total_tokens, Some(8));
}

#[test]
fn first_usage_payload_wins_for_the_base_dialect() {
    let mut capture = capture_none();
    capture.capture_usage = true;
    let mut s = streamer(AdapterKind::Ollama, capture);
    expect_skip(s.drive(msg(r#"{"usage":{"total_tokens":4}}"#)));
    expect_skip(s.drive(msg(r#"{"usage":{"total_tokens":11}}"#)));
    let end = expect_end(s.drive(msg("[DONE]")));
    assert_eq!(end.captured_usage.unwrap().total_tokens, Some(4));
}

#[test]
fn empty_choice_emits_nothing() {
    let mut s = streamer(AdapterKind::OpenAI, capture_none());
    expect_skip(s.drive(msg(r#"{"choices":[{"delta":{}}]}"#)));
    expect_skip(s.drive(msg(r#"{"choices":[{"delta":{"content":null}}]}"#)));
}

#[test]
fn missing_finish_reason_is_not_an_error() {
    let mut s = streamer(AdapterKind::Xai, capture_none());
    let ev = expect_emit(s.drive(msg(
        r#"{"choices":[{"delta":{"content":"ok"},"finish_reason":null}]}"#,
    )));
    assert_eq!(ev, InterStreamEvent::Chunk(InterStreamChunk::Content("ok".to_string())));
}
