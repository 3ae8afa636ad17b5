//! Tests for reading tool-call fragments out of their JSON documents.

use llm_stream::assembler::{OpenAIToolCall, OpenAIToolCallFunction};
use llm_stream::json_text::parse_document;

fn doc(text: &str) -> llm_stream::Json {
    parse_document(text).expect("document should parse")
}

#[test]
fn test_deserialize_tool_call() {
    let tool_call = r#"{"index":0,"id":"call_VkT1Z57SU75JNIOCxzGZnYVd","type":"function","function":{"name":"get_weather","arguments":""}}"#;
    let tool_call: OpenAIToolCall = OpenAIToolCall::from_json(&doc(tool_call)).unwrap();
    assert_eq!(tool_call.index, 0);
    assert_eq!(tool_call.id, "call_VkT1Z57SU75JNIOCxzGZnYVd");
    assert_eq!(tool_call.function.name, "get_weather");
    assert_eq!(tool_call.function.arguments, "");
}

#[test]
fn test_deserialize_tool_call_function() {
    let tool_call_function = r#"{"name":"get_weather","arguments":""}"#;
    let tool_call_function: OpenAIToolCallFunction =
        OpenAIToolCallFunction::from_json(&doc(tool_call_function)).unwrap();
    assert_eq!(tool_call_function.name, "get_weather");
    assert_eq!(tool_call_function.arguments, "");
}

#[test]
fn test_deserialize_tool_call_function_with_arguments() {
    let tool_call_function =
        r#"{"name":"get_weather","arguments":"{\"city\":\"Tokyo\",\"country\":\"Japan\",\"unit\":\"C\"}"}"#;
    let tool_call_function: OpenAIToolCallFunction =
        OpenAIToolCallFunction::from_json(&doc(tool_call_function)).unwrap();
    assert_eq!(tool_call_function.name, "get_weather");
    assert_eq!(
        tool_call_function.arguments,
        "{\"city\":\"Tokyo\",\"country\":\"Japan\",\"unit\":\"C\"}"
    );
}

#[test]
fn test_partial_deserialize_tool() {
    let tool_call = r#"{"index":0,"function":{"arguments":"{\""}}"#;
    let tool_call: OpenAIToolCall = OpenAIToolCall::from_json(&doc(tool_call)).unwrap();
    assert_eq!(tool_call.index, 0);
    assert_eq!(tool_call.id, "");
    assert_eq!(tool_call.function.name, "");
    assert_eq!(tool_call.function.arguments, "{\"");
}

#[test]
fn test_tool_fragment_missing_index_rejected() {
    let tool_call = r#"{"id":"c1","function":{"name":"f"}}"#;
    assert!(OpenAIToolCall::from_json(&doc(tool_call)).is_none());
}

#[test]
fn test_tool_fragment_wrong_typed_id_rejected() {
    let tool_call = r#"{"index":0,"id":7}"#;
    assert!(OpenAIToolCall::from_json(&doc(tool_call)).is_none());
}
