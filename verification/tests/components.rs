//! Unit tests for the decoder, the assembler, the JSON model, the public
//! translation layer, and the image data carriers.

use llm_stream::assembler::{merge, OpenAIToolCall, OpenAIToolCallFunction};
use llm_stream::chat_stream::{
    translate_event, ChatStreamEvent, StreamChunk, StreamReasoningChunk,
};
use llm_stream::chat_types::{
    AdapterKind, ContentPart, ImageSource, MessageContent, ModelIden, ToolCall, Usage,
};
use llm_stream::decoder::{decode_chunk, ChunkDecoded};
use llm_stream::image_request::ImageRequest;
use llm_stream::image_response::ImageResponse;
use llm_stream::inter_stream::{
    InterReasoningChunk, InterStreamChunk, InterStreamChunkTool, InterStreamEnd, InterStreamEvent,
};
use llm_stream::json::Json;
use llm_stream::json_text::parse_document;

fn doc(text: &str) -> Json {
    parse_document(text).expect("document should parse")
}

fn frag(index: usize, id: &str, name: &str, arguments: &str) -> OpenAIToolCall {
    OpenAIToolCall {
        index,
        id: id.to_string(),
        function: OpenAIToolCallFunction {
            name: name.to_string(),
            arguments: arguments.to_string(),
        },
    }
}

#[test]
fn json_navigation_reads_members_and_elements() {
    let d = doc(r#"{"a":[1,"two",null],"b":{"c":true},"n":-3,"x":1.5}"#);
    let a = d.get(&"a".to_string()).unwrap();
    assert_eq!(a.at(0), Some(&Json::UInt(1)));
    assert_eq!(a.at(1).unwrap().as_str(), Some(&"two".to_string()));
    assert_eq!(a.at(2), Some(&Json::Null));
    assert_eq!(a.at(3), None);
    let b = d.get(&"b".to_string()).unwrap();
    assert_eq!(b.get(&"c".to_string()), Some(&Json::Bool(true)));
    assert_eq!(d.get(&"n".to_string()), Some(&Json::Int(-3)));
    assert_eq!(d.get(&"x".to_string()), Some(&Json::NumOther));
    assert_eq!(d.get(&"missing".to_string()), None);
}

#[test]
fn parse_document_rejects_malformed_text() {
    assert!(matches!(
        parse_document("{\"a\":"),
        Err(llm_stream::json_text::ParseError::Syntax(_))
    ));
    assert!(matches!(
        parse_document("[DONE]"),
        Err(llm_stream::json_text::ParseError::Syntax(_))
    ));
}

#[test]
fn decode_classifies_each_payload_shape() {
    assert_eq!(
        decode_chunk(&doc(r#"{"choices":[{"delta":{},"finish_reason":"stop"}]}"#)),
        ChunkDecoded::Finish
    );
    assert_eq!(
        decode_chunk(&doc(r#"{"choices":[{"delta":{"content":"hey"}}]}"#)),
        ChunkDecoded::Content("hey".to_string())
    );
    assert_eq!(
        decode_chunk(&doc(r#"{"choices":[{"delta":{"reasoning_content":"hm"}}]}"#)),
        ChunkDecoded::Reasoning("hm".to_string())
    );
    assert_eq!(
        decode_chunk(&doc(r#"{"choices":[{"delta":{"tool_calls":[{"index":2}]}}]}"#)),
        ChunkDecoded::ToolFrag(frag(2, "", "", ""))
    );
    assert_eq!(decode_chunk(&doc(r#"{"choices":[{"delta":{}}]}"#)), ChunkDecoded::NoContent);
    assert_eq!(decode_chunk(&doc(r#"{"usage":{"total_tokens":1}}"#)), ChunkDecoded::NoChoice);
    assert_eq!(decode_chunk(&doc(r#"{"choices":[]}"#)), ChunkDecoded::NoChoice);
    assert_eq!(decode_chunk(&doc(r#"{"choices":[null]}"#)), ChunkDecoded::NoChoice);
}

#[test]
fn decode_prefers_finish_over_content() {
    assert_eq!(
        decode_chunk(&doc(
            r#"{"choices":[{"delta":{"content":"x"},"finish_reason":"stop"}]}"#
        )),
        ChunkDecoded::Finish
    );
}

#[test]
fn malformed_tool_fragment_falls_through_to_reasoning() {
    assert_eq!(
        decode_chunk(&doc(
            r#"{"choices":[{"delta":{"tool_calls":[{"id":"no-index"}],"reasoning_content":"r"}}]}"#
        )),
        ChunkDecoded::Reasoning("r".to_string())
    );
}

#[test]
fn merge_appends_fields_for_the_same_index() {
    let (held, flushed) = merge(None, frag(0, "c1", "get", "{\""));
    assert_eq!(flushed, None);
    let (held, flushed) = merge(held, frag(0, "", "_weather", "c\":1}"));
    assert_eq!(flushed, None);
    let held = held.unwrap();
    assert_eq!(held.id, "c1");
    assert_eq!(held.function.name, "get_weather");
    assert_eq!(held.function.arguments, "{\"c\":1}");
}

#[test]
fn merge_flushes_on_a_new_index() {
    let (held, _) = merge(None, frag(0, "c1", "get_weather", "{}"));
    let (held, flushed) = merge(held, frag(1, "c2", "other", ""));
    let flushed = flushed.unwrap();
    assert_eq!(flushed.id, "c1");
    assert_eq!(flushed.function.name, "get_weather");
    let held = held.unwrap();
    assert_eq!(held.index, 1);
    assert_eq!(held.id, "c2");
}

#[test]
fn finalize_parses_assembled_arguments_and_defaults_on_failure() {
    let good = frag(0, "c1", "f", r#"{"city":"Tokyo"}"#).finalize();
    assert_eq!(good.call_id, "c1");
    assert_eq!(good.fn_name, "f");
    assert_eq!(
        good.fn_arguments,
        Json::Obj(vec![("city".to_string(), Json::Str("Tokyo".to_string()))])
    );
    let bad = frag(0, "c2", "g", "{\"unfinished").finalize();
    assert_eq!(bad.fn_arguments, Json::Null);
}

#[test]
fn finalize_with_keeps_the_given_arguments_document() {
    let t = frag(0, "c1", "f", "ignored").finalize_with(Json::Bool(true));
    assert_eq!(t.call_id, "c1");
    assert_eq!(t.fn_name, "f");
    assert_eq!(t.fn_arguments, Json::Bool(true));
}

#[test]
fn usage_reads_only_unsigned_integer_counts() {
    let u = Usage::from_json(&doc(
        r#"{"prompt_tokens":3,"completion_tokens":"x","total_tokens":-1}"#,
    ));
    assert_eq!(u.prompt_tokens, Some(3));
    assert_eq!(u.completion_tokens, None);
    assert_eq!(u.total_tokens, None);
    assert_eq!(Usage::from_json(&doc("{}")), Usage::default());
}

#[test]
fn translate_relays_each_event_one_to_one() {
    assert_eq!(translate_event(InterStreamEvent::Start), ChatStreamEvent::Start);
    assert_eq!(
        translate_event(InterStreamEvent::Chunk(InterStreamChunk::Content("a".to_string()))),
        ChatStreamEvent::Chunk(StreamChunk::Content("a".to_string()))
    );
    let tool = translate_event(InterStreamEvent::Chunk(InterStreamChunk::Tool(
        3,
        InterStreamChunkTool {
            id: "i".to_string(),
            name: "n".to_string(),
            arguments: "a".to_string(),
        },
    )));
    match tool {
        ChatStreamEvent::Chunk(StreamChunk::Tool(3, t)) => {
            assert_eq!(t.id, "i");
            assert_eq!(t.name, "n");
            assert_eq!(t.arguments, "a");
        }
        other => panic!("expected a tool chunk, got {:?}", other),
    }
    assert_eq!(
        translate_event(InterStreamEvent::ReasoningChunk(InterReasoningChunk::Content(
            "r".to_string()
        ))),
        ChatStreamEvent::ReasoningChunk(StreamReasoningChunk::Content("r".to_string()))
    );
    let end = translate_event(InterStreamEvent::End(InterStreamEnd {
        captured_usage: None,
        captured_content: Some("all".to_string()),
        captured_reasoning_content: None,
        captured_tools: vec![ToolCall {
            call_id: "c".to_string(),
            fn_name: "f".to_string(),
            fn_arguments: Json::Null,
        }],
    }));
    match end {
        ChatStreamEvent::End(e) => {
            assert_eq!(e.captured_content, Some(MessageContent::Text("all".to_string())));
            assert_eq!(e.captured_tools.len(), 1);
            assert_eq!(e.captured_tools[0].call_id, "c");
        }
        other => panic!("expected the end event, got {:?}", other),
    }
}

#[test]
fn image_request_builders_set_each_field() {
    let req = ImageRequest::from_prompt("A red circle".to_string())
        .with_n(2)
        .with_size("1024x1024".to_string())
        .with_quality("standard".to_string())
        .with_style("vivid".to_string())
        .with_response_format("url".to_string());
    assert_eq!(req.prompt, "A red circle");
    assert_eq!(req.n, Some(2));
    assert_eq!(req.size, Some("1024x1024".to_string()));
    assert_eq!(req.quality, Some("standard".to_string()));
    assert_eq!(req.style, Some("vivid".to_string()));
    assert_eq!(req.response_format, Some("url".to_string()));
    let plain = ImageRequest::new("x".to_string());
    assert_eq!(plain.n, None);
    assert_eq!(plain.size, None);
}

#[test]
fn image_response_getters_walk_the_images() {
    let part = ContentPart::Image {
        content_type: "image/png".to_string(),
        source: ImageSource::Url("https://example.test/one.png".to_string()),
    };
    let resp = ImageResponse {
        images: vec![part.clone(), ContentPart::Text("alt".to_string())],
        model_iden: ModelIden {
            adapter_kind: AdapterKind::OpenAI,
            model_name: "img-model".to_string(),
        },
        usage: None,
        captured_raw_body: None,
    };
    assert_eq!(resp.first_image(), Some(&part));
    assert_eq!(resp.all_images().len(), 2);
    let images = resp.into_images();
    assert_eq!(images.len(), 2);
    assert_eq!(images[0], part);

    let empty = ImageResponse {
        images: vec![],
        model_iden: ModelIden {
            adapter_kind: AdapterKind::OpenAI,
            model_name: "img-model".to_string(),
        },
        usage: None,
        captured_raw_body: None,
    };
    assert_eq!(empty.first_image(), None);
}
