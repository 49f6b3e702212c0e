use self_llm::anthropic::wire;
use self_llm::anthropic::{convert_content, convert_request, convert_response, parse_stream_data, DEFAULT_MAX_TOKENS};
use self_llm::error::Error;
use self_llm::sse::SseAction;
use self_llm::types::{
    ChatRequest, ContentPart, ImageSource, Message, Role, StopReason, StreamEvent, Tool, ToolChoice,
    ToolResult, ToolUse,
};

#[test]
fn system_messages_become_the_system_prompt() {
    let sys = Message {
        role: Role::System,
        content: vec![
            ContentPart::Text("one".to_string()),
            ContentPart::Reasoning("skip".to_string()),
            ContentPart::Text("two".to_string()),
        ],
    };
    let req = ChatRequest::new("sonnet", vec![Message::system("old"), Message::user("hi"), sys, Message::assistant("yo")]);
    let w = convert_request(req, false);
    assert_eq!(w.system.as_deref(), Some("one\ntwo"));
    assert_eq!(w.messages.len(), 2);
    assert_eq!(w.messages[0].role, "user");
    assert_eq!(w.messages[1].role, "assistant");
    assert!(matches!(&w.messages[0].content[0], wire::ContentBlock::Text { text } if text == "hi"));
    assert_eq!(w.max_tokens, DEFAULT_MAX_TOKENS);
    assert_eq!(DEFAULT_MAX_TOKENS, 4096);
    assert!(!w.stream && !w.cache_control);
}

#[test]
fn no_system_message_means_no_system_prompt() {
    let w = convert_request(ChatRequest::new("c", vec![Message::user("x")]).max_tokens(10), true);
    assert!(w.system.is_none());
    assert_eq!(w.max_tokens, 10);
    assert!(w.stream);
    assert!(w.tool_choice.is_none());
}

#[test]
fn content_blocks_drop_reasoning_and_empty_text() {
    let parts = vec![
        ContentPart::Reasoning("r".to_string()),
        ContentPart::Text(String::new()),
        ContentPart::Text("t".to_string()),
        ContentPart::Image(ImageSource::Base64 { media_type: "image/png".to_string(), data: "QQ==".to_string() }),
        ContentPart::Image(ImageSource::Url("https://a/b".to_string())),
        ContentPart::ToolUse(ToolUse { id: "u1".to_string(), name: "calc".to_string(), input: "{\"a\":1}".to_string() }),
        ContentPart::ToolResult(ToolResult { tool_use_id: "u1".to_string(), content: "1".to_string(), is_error: true }),
    ];
    let blocks = convert_content(&parts);
    assert_eq!(blocks.len(), 5);
    assert!(matches!(&blocks[0], wire::ContentBlock::Text { text } if text == "t"));
    assert!(matches!(&blocks[1], wire::ContentBlock::Image { source: wire::ImageSource::Base64 { media_type, data } } if media_type == "image/png" && data == "QQ=="));
    assert!(matches!(&blocks[2], wire::ContentBlock::Image { source: wire::ImageSource::Url { url } } if url == "https://a/b"));
    assert!(matches!(&blocks[3], wire::ContentBlock::ToolUse { id, name, input } if id == "u1" && name == "calc" && input == "{\"a\":1}"));
    assert!(matches!(&blocks[4], wire::ContentBlock::ToolResult { tool_use_id, content, is_error: true } if tool_use_id == "u1" && content == "1"));
}

#[test]
fn request_options_follow_their_documented_names() {
    let req = ChatRequest::new("c", vec![])
        .tools(vec![Tool { name: "t".to_string(), description: "d".to_string(), parameters: "{}".to_string() }])
        .tool_choice(ToolChoice::Required)
        .parallel_tool_calls(false)
        .stop_sequences(vec!["X".to_string()])
        .top_k(7)
        .user("user-9")
        .budget_tokens(1024)
        .prompt_cache(true);
    let w = convert_request(req, false);
    let tools = w.tools.unwrap();
    assert_eq!((tools[0].name.as_str(), tools[0].description.as_str(), tools[0].input_schema.as_str()), ("t", "d", "{}"));
    let tc = w.tool_choice.unwrap();
    assert_eq!(tc.kind, wire::ToolChoiceKind::Any);
    assert_eq!(tc.disable_parallel_tool_use, Some(true));
    assert_eq!(w.stop_sequences, Some(vec!["X".to_string()]));
    assert_eq!(w.top_k, Some(7));
    assert_eq!(w.user_id.as_deref(), Some("user-9"));
    assert_eq!(w.thinking_budget_tokens, Some(1024));
    assert!(w.cache_control);
}

#[test]
fn tool_choice_kinds() {
    let kind = |c: ToolChoice| convert_request(ChatRequest::new("c", vec![]).tool_choice(c), false).tool_choice.unwrap();
    assert_eq!(kind(ToolChoice::Auto).kind, wire::ToolChoiceKind::Auto);
    assert_eq!(kind(ToolChoice::Never).kind, wire::ToolChoiceKind::Never);
    assert_eq!(kind(ToolChoice::Specific("f".to_string())).kind, wire::ToolChoiceKind::Tool("f".to_string()));
    assert_eq!(kind(ToolChoice::Auto).disable_parallel_tool_use, None);
    let only_parallel = convert_request(ChatRequest::new("c", vec![]).parallel_tool_calls(true), false).tool_choice.unwrap();
    assert_eq!(only_parallel.kind, wire::ToolChoiceKind::Auto);
    assert_eq!(only_parallel.disable_parallel_tool_use, Some(false));
}

fn usage() -> wire::Usage {
    wire::Usage { input_tokens: 5, output_tokens: 6, cache_read_input_tokens: Some(2), cache_creation_input_tokens: Some(3) }
}

#[test]
fn response_keeps_text_and_tool_use() {
    let resp = wire::Response {
        id: "msg_1".to_string(),
        model: "sonnet".to_string(),
        content: vec![
            wire::ContentBlock::Text { text: "hello".to_string() },
            wire::ContentBlock::Image { source: wire::ImageSource::Url { url: "u".to_string() } },
            wire::ContentBlock::ToolUse { id: "t".to_string(), name: "n".to_string(), input: "{}".to_string() },
        ],
        stop_reason: Some("tool_use".to_string()),
        usage: usage(),
    };
    let r = convert_response(resp);
    assert_eq!(r.id, "msg_1");
    assert_eq!(r.content.len(), 2);
    assert_eq!(r.text(), Some("hello"));
    assert_eq!(r.tool_uses()[0].name, "n");
    assert_eq!(r.stop_reason, StopReason::ToolUse);
    let u = r.usage.unwrap();
    assert_eq!((u.input_tokens, u.output_tokens, u.cache_read_input_tokens, u.cache_creation_input_tokens), (5, 6, Some(2), Some(3)));
}

#[test]
fn response_stop_reasons() {
    let with = |s: Option<&str>| {
        convert_response(wire::Response {
            id: String::new(),
            model: String::new(),
            content: vec![],
            stop_reason: s.map(|x| x.to_string()),
            usage: usage(),
        })
        .stop_reason
    };
    assert_eq!(with(Some("end_turn")), StopReason::EndTurn);
    assert_eq!(with(Some("max_tokens")), StopReason::MaxTokens);
    assert_eq!(with(Some("stop_sequence")), StopReason::Unknown("stop_sequence".to_string()));
    assert_eq!(with(None), StopReason::Unknown("none".to_string()));
}

#[test]
fn stream_events_map_to_unified_events() {
    let y = |e: wire::StreamEvent| parse_stream_data(Ok(e));
    assert!(matches!(y(wire::StreamEvent::ContentBlockDelta { index: 0, delta: wire::Delta::TextDelta { text: "a".to_string() } }),
        SseAction::Yield(Ok(StreamEvent::ContentDelta(t))) if t == "a"));
    assert!(matches!(y(wire::StreamEvent::ContentBlockDelta { index: 2, delta: wire::Delta::InputJsonDelta { partial_json: "{\"x".to_string() } }),
        SseAction::Yield(Ok(StreamEvent::ToolCallDelta { index: 2, arguments_delta })) if arguments_delta == "{\"x"));
    assert!(matches!(y(wire::StreamEvent::ContentBlockStart { index: 1, content_block: wire::ContentBlock::ToolUse { id: "i".to_string(), name: "n".to_string(), input: "{}".to_string() } }),
        SseAction::Yield(Ok(StreamEvent::ToolCallStart { index: 1, id, name })) if id == "i" && name == "n"));
    assert!(matches!(y(wire::StreamEvent::ContentBlockStart { index: 0, content_block: wire::ContentBlock::Text { text: String::new() } }), SseAction::Skip));
    assert!(matches!(y(wire::StreamEvent::MessageStart { usage: usage() }),
        SseAction::Yield(Ok(StreamEvent::Usage(u))) if u.input_tokens == 5 && u.cache_creation_input_tokens == Some(3)));
    assert!(matches!(y(wire::StreamEvent::MessageDelta { stop_reason: Some("end_turn".to_string()) }),
        SseAction::Yield(Ok(StreamEvent::Done(StopReason::EndTurn)))));
    assert!(matches!(y(wire::StreamEvent::MessageDelta { stop_reason: None }),
        SseAction::Yield(Ok(StreamEvent::Done(StopReason::Unknown(s)))) if s == "none"));
    assert!(matches!(y(wire::StreamEvent::Error { message: "overloaded".to_string() }),
        SseAction::Yield(Err(Error::Stream(m))) if m == "overloaded"));
    assert!(matches!(y(wire::StreamEvent::MessageStop), SseAction::Skip));
    assert!(matches!(y(wire::StreamEvent::Ping), SseAction::Skip));
    assert!(matches!(y(wire::StreamEvent::ContentBlockStop { index: 0 }), SseAction::Skip));
    assert!(matches!(parse_stream_data(Err("eof".to_string())), SseAction::Yield(Err(Error::Json(m))) if m == "eof"));
}
