use alice::anthropic::{api_error, http_error, stream_error};
use alice::anthropic::AnthropicProvider;
use alice::event::LLMStreamEvent;
use alice::sse::{parse_sse_data, parse_sse_value, PendingTool, SseDecoder};
use alice::types::{FunctionCall, Message, ToolCall, ToolDef};

fn json(text: &str) -> serde_json::Value {
    serde_json::from_str(text).unwrap()
}

#[test]
fn test_parse_sse_done() {
    let event = parse_sse_data("[DONE]");
    assert!(matches!(event, Some(LLMStreamEvent::StreamEnd { stop_reason }) if stop_reason == "end_turn"));
}

#[test]
fn test_parse_sse_text_delta() {
    let data = r#"{"type":"content_block_delta","delta":{"text":"Hello"}}"#;
    let event = parse_sse_data(data);
    assert!(matches!(event, Some(LLMStreamEvent::TextDelta { delta }) if delta == "Hello"));
}

#[test]
fn test_parse_sse_thinking_delta() {
    let data = r#"{"type":"content_block_delta","delta":{"thinking":"I think"}}"#;
    let event = parse_sse_data(data);
    assert!(matches!(event, Some(LLMStreamEvent::ThinkingDelta { delta }) if delta == "I think"));
}

#[test]
fn test_parse_sse_message_stop() {
    let data = r#"{"type":"message_stop"}"#;
    let event = parse_sse_data(data);
    assert!(matches!(event, Some(LLMStreamEvent::StreamEnd { stop_reason }) if stop_reason == "end_turn"));
}

#[test]
fn test_parse_sse_unknown_type() {
    let data = r#"{"type":"ping"}"#;
    assert!(parse_sse_data(data).is_none());
}

#[test]
fn test_parse_sse_invalid_json() {
    assert!(parse_sse_data("not valid json").is_none());
}

#[test]
fn test_parse_tool_use_sse_events() {
    let mut tool: PendingTool = None;

    let start = json(r#"{"type":"content_block_start","content_block":{"type":"tool_use","id":"tool_1","name":"echo"}}"#);
    assert!(parse_sse_value(&start, &mut tool).is_none());

    let delta = json(r#"{"type":"content_block_delta","delta":{"partial_json":"{\"message\":\"hi\"}"}}"#);
    assert!(parse_sse_value(&delta, &mut tool).is_none());

    let stop = json(r#"{"type":"content_block_stop"}"#);
    let event = parse_sse_value(&stop, &mut tool);
    match event {
        Some(LLMStreamEvent::ToolCall { tool_call }) => {
            assert_eq!(tool_call.id, "tool_1");
            assert_eq!(tool_call.function.name, "echo");
            let input: serde_json::Value = serde_json::from_str(&tool_call.function.arguments).unwrap();
            assert_eq!(input["message"], "hi");
        }
        _ => panic!("expected ToolCall event, got {:?}", event),
    }
}

#[test]
fn test_parse_tool_use_with_split_partial_json() {
    let mut tool: PendingTool = None;

    let start = json(r#"{"type":"content_block_start","content_block":{"type":"tool_use","id":"tool_2","name":"echo"}}"#);
    parse_sse_value(&start, &mut tool);

    parse_sse_value(&json(r#"{"type":"content_block_delta","delta":{"partial_json":"{\"mes"}}"#), &mut tool);
    parse_sse_value(&json(r#"{"type":"content_block_delta","delta":{"partial_json":"sage\":\"hi"}}"#), &mut tool);
    parse_sse_value(&json(r#"{"type":"content_block_delta","delta":{"partial_json":"\"}"}}"#), &mut tool);

    let event = parse_sse_value(&json(r#"{"type":"content_block_stop"}"#), &mut tool);
    match event {
        Some(LLMStreamEvent::ToolCall { tool_call }) => {
            assert_eq!(tool_call.id, "tool_2");
            let input: serde_json::Value = serde_json::from_str(&tool_call.function.arguments).unwrap();
            assert_eq!(input["message"], "hi");
        }
        _ => panic!("expected ToolCall event"),
    }
}

#[test]
fn content_block_stop_without_tool_yields_nothing() {
    let mut tool: PendingTool = None;
    assert!(parse_sse_value(&json(r#"{"type":"content_block_stop"}"#), &mut tool).is_none());
    assert!(tool.is_none());
}

#[test]
fn decoder_splits_lines_across_chunks_and_stops_at_the_end() {
    let mut decoder = SseDecoder::new();
    let first = decoder.feed("event: content_block_delta\ndata: {\"type\":\"content_block_delta\",\"delta\":{\"te");
    assert!(first.is_empty());
    let second = decoder.feed("xt\":\"Hi\"}}\r\n\ndata: [DONE]\ndata: {\"type\":\"content_block_delta\",\"delta\":{\"text\":\"late\"}}\n");
    assert_eq!(second.len(), 2);
    assert_eq!(second[0], LLMStreamEvent::TextDelta { delta: "Hi".into() });
    assert_eq!(second[1], LLMStreamEvent::StreamEnd { stop_reason: "end_turn".into() });
    assert!(decoder.is_finished());
    assert!(decoder.finish().is_none());
}

#[test]
fn decoder_reports_end_when_body_runs_out() {
    let mut decoder = SseDecoder::new();
    let events = decoder.feed_bytes("data: {\"type\":\"content_block_delta\",\"delta\":{\"thinking\":\"hm\"}}\n".as_bytes());
    assert_eq!(events, vec![LLMStreamEvent::ThinkingDelta { delta: "hm".into() }]);
    assert_eq!(decoder.finish(), Some(LLMStreamEvent::StreamEnd { stop_reason: "end_turn".into() }));
}

#[test]
fn decoder_assembles_tool_calls_across_lines() {
    let mut decoder = SseDecoder::new();
    let mut body = String::new();
    body.push_str("data: {\"type\":\"content_block_start\",\"content_block\":{\"type\":\"tool_use\",\"id\":\"t9\",\"name\":\"Bash\"}}\n");
    body.push_str("data: {\"type\":\"content_block_delta\",\"delta\":{\"partial_json\":\"{\\\"command\\\":\"}}\n");
    body.push_str("data: {\"type\":\"content_block_delta\",\"delta\":{\"partial_json\":\"\\\"ls\\\"}\"}}\n");
    body.push_str("data: {\"type\":\"content_block_stop\"}\n");
    let events = decoder.feed(&body);
    assert_eq!(events.len(), 1);
    match &events[0] {
        LLMStreamEvent::ToolCall { tool_call } => {
            assert_eq!(tool_call.id, "t9");
            assert_eq!(tool_call.function.name, "Bash");
            assert_eq!(tool_call.function.arguments, "{\"command\":\"ls\"}");
        }
        other => panic!("expected a tool call, got {:?}", other),
    }
}

#[test]
fn test_custom_base_url_is_normalized() {
    let provider = AnthropicProvider::new(
        "fake-key".into(),
        "test-model".into(),
        "https://api.example.com/anthropic/".into(),
    );
    assert_eq!(provider.base_url(), "https://api.example.com/anthropic/");
}

#[test]
fn test_default_base_url() {
    let provider = AnthropicProvider::new(
        "fake-key".into(),
        "test-model".into(),
        "https://api.anthropic.com".into(),
    );
    assert_eq!(provider.base_url(), "https://api.anthropic.com");
}

#[test]
fn test_custom_model_id() {
    let provider = AnthropicProvider::new(
        "fake-key".into(),
        "custom-test-model".into(),
        "https://api.anthropic.com".into(),
    );
    assert_eq!(provider.model(), "custom-test-model");
}

#[test]
fn test_format_messages_includes_tools() {
    let provider = AnthropicProvider::new(
        "fake-key".into(),
        "test-model".into(),
        "https://api.anthropic.com".into(),
    );
    let tools = vec![ToolDef {
        name: "echo".into(),
        description: "Echoes input".into(),
        input_schema: json(
            r#"{"type": "object", "properties": {"message": {"type": "string"}}, "required": ["message"]}"#,
        ),
    }];
    let body = provider.format_messages(&[], &tools);
    let tools_array = body.get("tools").and_then(|v| v.as_array()).expect("expected tools array");
    assert_eq!(tools_array.len(), 1);
    assert_eq!(tools_array[0].get("name").and_then(|v| v.as_str()), Some("echo"));
}

#[test]
fn test_format_messages_includes_multiple_tools() {
    let provider = AnthropicProvider::new(
        "fake-key".into(),
        "test-model".into(),
        "https://api.anthropic.com".into(),
    );
    let tools = vec![
        ToolDef {
            name: "echo".into(),
            description: "Echoes input".into(),
            input_schema: json(r#"{"type": "object"}"#),
        },
        ToolDef {
            name: "Bash".into(),
            description: "Runs shell commands".into(),
            input_schema: json(r#"{"type": "object"}"#),
        },
        ToolDef {
            name: "FileRead".into(),
            description: "Reads files".into(),
            input_schema: json(r#"{"type": "object"}"#),
        },
    ];
    let body = provider.format_messages(&[], &tools);
    let tools_array = body.get("tools").and_then(|v| v.as_array()).expect("expected tools array");
    assert_eq!(tools_array.len(), 3);
    let names: Vec<&str> = tools_array
        .iter()
        .filter_map(|t| t.get("name").and_then(|v| v.as_str()))
        .collect();
    assert!(names.contains(&"echo"));
    assert!(names.contains(&"Bash"));
    assert!(names.contains(&"FileRead"));
}

#[test]
fn test_assistant_message_with_tool_use() {
    let provider = AnthropicProvider::new(
        "fake-key".into(),
        "test-model".into(),
        "https://api.anthropic.com".into(),
    );
    let messages = vec![Message::Assistant {
        content: "I'll echo that.".into(),
        tool_calls: vec![ToolCall {
            id: "tool_1".into(),
            call_type: "tool_use".into(),
            function: FunctionCall {
                name: "echo".into(),
                arguments: r#"{"message":"hello"}"#.into(),
            },
        }],
    }];
    let body = provider.format_messages(&messages, &[]);
    let formatted = body.get("messages").and_then(|v| v.as_array()).unwrap();
    let msg = formatted[0].as_object().unwrap();
    assert_eq!(msg["role"], "assistant");
    let content = msg["content"].as_array().expect("expected content array");
    assert_eq!(content.len(), 2);
    assert_eq!(content[0]["type"], "text");
    assert_eq!(content[1]["type"], "tool_use");
    assert_eq!(content[1]["name"], "echo");
    assert_eq!(content[1]["input"]["message"], "hello");
}

#[test]
fn test_tool_result_message() {
    let provider = AnthropicProvider::new(
        "fake-key".into(),
        "test-model".into(),
        "https://api.anthropic.com".into(),
    );
    let messages = vec![Message::Tool {
        content: "hello".into(),
        tool_call_id: "tool_1".into(),
    }];
    let body = provider.format_messages(&messages, &[]);
    let formatted = body.get("messages").and_then(|v| v.as_array()).unwrap();
    let msg = &formatted[0];
    assert_eq!(msg["role"], "user");
    let content = msg["content"].as_array().expect("expected content array");
    assert_eq!(content.len(), 1);
    assert_eq!(content[0]["type"], "tool_result");
    assert_eq!(content[0]["tool_use_id"], "tool_1");
    assert_eq!(content[0]["content"], "hello");
}

#[test]
fn request_body_carries_model_limit_and_streaming() {
    let provider = AnthropicProvider::new("k".into(), "m-1".into(), "https://h".into());
    let messages = vec![
        Message::User { content: "hi".into() },
        Message::Assistant { content: "hello".into(), tool_calls: vec![] },
    ];
    let body = provider.format_messages(&messages, &[]);
    assert_eq!(body["model"], "m-1");
    assert_eq!(body["max_tokens"], 4096);
    assert_eq!(body["stream"], true);
    assert!(body.get("tools").is_none());
    let formatted = body["messages"].as_array().unwrap();
    assert_eq!(formatted.len(), 2);
    assert_eq!(formatted[0], json(r#"{"role": "user", "content": "hi"}"#));
    assert_eq!(formatted[1], json(r#"{"role": "assistant", "content": "hello"}"#));
}

#[test]
fn tool_use_without_text_and_with_invalid_arguments() {
    let provider = AnthropicProvider::new("k".into(), "m".into(), "https://h".into());
    let messages = vec![Message::Assistant {
        content: String::new(),
        tool_calls: vec![ToolCall {
            id: "t9".into(),
            call_type: "tool_use".into(),
            function: FunctionCall { name: "Bash".into(), arguments: "not json".into() },
        }],
    }];
    let body = provider.format_messages(&messages, &[]);
    let content = body["messages"][0]["content"].as_array().unwrap();
    assert_eq!(content.len(), 1);
    assert_eq!(
        content[0],
        json(r#"{"type": "tool_use", "id": "t9", "name": "Bash", "input": {}}"#)
    );
}

#[test]
fn provider_keeps_the_api_key() {
    let provider = AnthropicProvider::new("key-1".into(), "m".into(), "https://h".into());
    assert_eq!(provider.api_key(), "key-1");
}

#[test]
fn stream_error_texts() {
    assert!(matches!(http_error("refused"), LLMStreamEvent::StreamError { error } if error == "HTTP error: refused"));
    assert!(matches!(
        api_error("HTTP status 401", "bad key"),
        LLMStreamEvent::StreamError { error } if error == "Anthropic API error (HTTP status 401): bad key"
    ));
    assert!(matches!(stream_error("reset"), LLMStreamEvent::StreamError { error } if error == "stream error: reset"));
}
