use self_llm::anthropic;
use self_llm::openai;
use self_llm::types::{ChatRequest, ContentPart, Message, Role, ToolResult};

#[test]
fn openai_tool_calls_come_back_with_same_ids_and_names() {
    let resp = openai::wire::Response {
        id: "r".to_string(),
        model: "m".to_string(),
        choices: vec![openai::wire::Choice {
            message: openai::wire::ResponseMessage {
                content: Some("let me compute".to_string()),
                reasoning_content: None,
                tool_calls: Some(vec![
                    openai::wire::ToolCall {
                        id: "call_1".to_string(),
                        call_type: "function".to_string(),
                        function: openai::wire::FunctionCall { name: "calculate".to_string(), arguments: "{\"a\": 7, \"b\": 5}".to_string() },
                    },
                    openai::wire::ToolCall {
                        id: "call_2".to_string(),
                        call_type: "function".to_string(),
                        function: openai::wire::FunctionCall { name: "calculate".to_string(), arguments: "{\"a\":10,\"b\":3}".to_string() },
                    },
                ]),
            },
            finish_reason: Some("tool_calls".to_string()),
        }],
        usage: None,
    };
    let first = openai::convert_response(resp);
    let results: Vec<ToolResult> = first
        .tool_uses()
        .iter()
        .map(|t| ToolResult { tool_use_id: t.id.clone(), content: "ok".to_string(), is_error: false })
        .collect();
    let followup = ChatRequest::new(
        "m",
        vec![Message { role: Role::Assistant, content: first.content.clone() }, Message::tool_results(results)],
    );
    let w = openai::convert_request(followup, false);
    assert_eq!(w.messages.len(), 3);
    let calls = w.messages[0].tool_calls.as_ref().unwrap();
    assert_eq!(calls.len(), 2);
    assert_eq!((calls[0].id.as_str(), calls[0].function.name.as_str()), ("call_1", "calculate"));
    assert_eq!(calls[0].function.arguments, "{\"a\":7,\"b\":5}");
    assert_eq!(calls[1].function.arguments, "{\"a\":10,\"b\":3}");
    assert_eq!(w.messages[1].tool_call_id.as_deref(), Some("call_1"));
    assert_eq!(w.messages[2].tool_call_id.as_deref(), Some("call_2"));
}

#[test]
fn anthropic_response_content_comes_back_unchanged() {
    let blocks = vec![
        anthropic::wire::ContentBlock::Text { text: "a".to_string() },
        anthropic::wire::ContentBlock::Text { text: String::new() },
        anthropic::wire::ContentBlock::ToolUse { id: "t".to_string(), name: "n".to_string(), input: "{\"x\":1}".to_string() },
    ];
    let resp = anthropic::wire::Response {
        id: "i".to_string(),
        model: "m".to_string(),
        content: blocks,
        stop_reason: None,
        usage: anthropic::wire::Usage { input_tokens: 0, output_tokens: 0, cache_read_input_tokens: None, cache_creation_input_tokens: None },
    };
    let back = anthropic::convert_content(&anthropic::convert_response(resp).content);
    assert_eq!(back.len(), 2);
    assert!(matches!(&back[0], anthropic::wire::ContentBlock::Text { text } if text == "a"));
    assert!(matches!(&back[1], anthropic::wire::ContentBlock::ToolUse { id, name, input } if id == "t" && name == "n" && input == "{\"x\":1}"));
}

#[test]
fn anthropic_never_sends_system_messages_or_empty_text() {
    let w = anthropic::convert_request(
        ChatRequest::new(
            "m",
            vec![
                Message::system("s"),
                Message { role: Role::User, content: vec![ContentPart::Text(String::new()), ContentPart::Text("x".to_string())] },
                Message::system("t"),
            ],
        ),
        false,
    );
    assert_eq!(w.system.as_deref(), Some("t"));
    assert!(w.messages.iter().all(|m| m.role == "user" || m.role == "assistant"));
    assert_eq!(w.messages[0].content.len(), 1);
}
