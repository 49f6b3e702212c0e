use self_llm::error::Error;
use self_llm::openai::wire;
use self_llm::openai::{convert_content, convert_request, convert_response, parse_stream_data, role_str};
use self_llm::sse::SseAction;
use self_llm::types::{
    ChatRequest, ContentPart, F32Bits, ImageSource, Message, Role, StopReason, StreamEvent, Tool,
    ToolChoice, ToolResult, ToolUse,
};

fn tool_use(id: &str, name: &str, input: &str) -> ContentPart {
    ContentPart::ToolUse(ToolUse { id: id.to_string(), name: name.to_string(), input: input.to_string() })
}

#[test]
fn roles_have_wire_names() {
    assert_eq!(role_str(&Role::System), "system");
    assert_eq!(role_str(&Role::User), "user");
    assert_eq!(role_str(&Role::Assistant), "assistant");
}

#[test]
fn single_text_is_sent_as_plain_string() {
    match convert_content(&vec![ContentPart::Text("hello".to_string())]) {
        wire::Content::Text(t) => assert_eq!(t, "hello"),
        _ => panic!("expected plain text"),
    }
}

#[test]
fn mixed_content_becomes_parts_with_data_urls() {
    let parts = vec![
        ContentPart::Text("look".to_string()),
        ContentPart::Reasoning("hidden".to_string()),
        ContentPart::Image(ImageSource::Base64 { media_type: "image/png".to_string(), data: "AAAA".to_string() }),
        ContentPart::Image(ImageSource::Url("https://e.x/a.jpg".to_string())),
    ];
    match convert_content(&parts) {
        wire::Content::Parts(ps) => {
            assert_eq!(ps.len(), 3);
            assert!(matches!(&ps[0], wire::ContentPart::Text { text } if text == "look"));
            assert!(matches!(&ps[1], wire::ContentPart::ImageUrl { url } if url == "data:image/png;base64,AAAA"));
            assert!(matches!(&ps[2], wire::ContentPart::ImageUrl { url } if url == "https://e.x/a.jpg"));
        }
        _ => panic!("expected parts"),
    }
    // A lone reasoning part is not a single text part.
    match convert_content(&vec![ContentPart::Reasoning("r".to_string())]) {
        wire::Content::Parts(ps) => assert!(ps.is_empty()),
        _ => panic!("expected parts"),
    }
}

#[test]
fn request_maps_options_and_regular_messages() {
    let req = ChatRequest::new(
        "gpt-4.1-mini",
        vec![Message::system("sys"), Message::assistant_with_reasoning("why", "because")],
    )
    .max_tokens(100)
    .temperature(F32Bits { bits: 0.5f32.to_bits() })
    .tools(vec![Tool { name: "calc".to_string(), description: "math".to_string(), parameters: "{\"type\":\"object\"}".to_string() }])
    .tool_choice(ToolChoice::Specific("calc".to_string()))
    .parallel_tool_calls(true)
    .stop_sequences(vec!["STOP".to_string()])
    .top_k(5)
    .user("me")
    .budget_tokens(10)
    .prompt_cache(true);
    let w = convert_request(req, false);
    assert_eq!(w.model, "gpt-4.1-mini");
    assert_eq!(w.max_tokens, Some(100));
    assert_eq!(w.temperature, Some(F32Bits { bits: 0.5f32.to_bits() }));
    assert!(!w.stream);
    assert!(w.stream_options.is_none());
    assert_eq!(w.store, Some(true));
    assert_eq!(w.user.as_deref(), Some("me"));
    assert_eq!(w.stop, Some(vec!["STOP".to_string()]));
    assert_eq!(w.parallel_tool_calls, Some(true));
    assert_eq!(w.tool_choice, Some(wire::ToolChoice::Function("calc".to_string())));
    let tools = w.tools.unwrap();
    assert_eq!(tools.len(), 1);
    assert_eq!(tools[0].tool_type, "function");
    assert_eq!(tools[0].function.name, "calc");
    assert_eq!(tools[0].function.parameters, "{\"type\":\"object\"}");
    assert_eq!(w.messages.len(), 2);
    assert_eq!(w.messages[0].role, "system");
    assert!(matches!(&w.messages[0].content, Some(wire::Content::Text(t)) if t == "sys"));
    assert_eq!(w.messages[1].role, "assistant");
    assert_eq!(w.messages[1].reasoning_content.as_deref(), Some("why"));
    match &w.messages[1].content {
        Some(wire::Content::Parts(ps)) => {
            assert_eq!(ps.len(), 1);
            assert!(matches!(&ps[0], wire::ContentPart::Text { text } if text == "because"));
        }
        _ => panic!("expected parts"),
    }
}

#[test]
fn streaming_request_asks_for_usage_and_no_store_without_cache() {
    let w = convert_request(ChatRequest::new("m", vec![]).prompt_cache(false), true);
    assert!(w.stream);
    assert_eq!(w.stream_options, Some(wire::StreamOptions { include_usage: true }));
    assert_eq!(w.store, None);
    assert!(w.messages.is_empty());
    assert!(w.tools.is_none() && w.tool_choice.is_none());
}

#[test]
fn tool_uses_and_results_become_tool_calls_and_tool_messages() {
    let assistant = Message {
        role: Role::Assistant,
        content: vec![
            ContentPart::Text("calling".to_string()),
            tool_use("c1", "calc", "{\"a\":7}"),
            tool_use("c2", "calc", "{\"a\":10}"),
        ],
    };
    let results = Message::tool_results(vec![
        ToolResult { tool_use_id: "c1".to_string(), content: "12".to_string(), is_error: false },
        ToolResult { tool_use_id: "c2".to_string(), content: "7".to_string(), is_error: false },
    ]);
    let w = convert_request(ChatRequest::new("m", vec![Message::user("q"), assistant, results]), false);
    assert_eq!(w.messages.len(), 4);
    let a = &w.messages[1];
    assert_eq!(a.role, "assistant");
    assert!(matches!(&a.content, Some(wire::Content::Text(t)) if t == "calling"));
    let calls = a.tool_calls.as_ref().unwrap();
    assert_eq!(calls.len(), 2);
    assert_eq!((calls[0].id.as_str(), calls[0].call_type.as_str(), calls[0].function.name.as_str()), ("c1", "function", "calc"));
    assert_eq!(calls[1].function.arguments, "{\"a\":10}");
    for (m, (id, content)) in w.messages[2..].iter().zip([("c1", "12"), ("c2", "7")]) {
        assert_eq!(m.role, "tool");
        assert_eq!(m.tool_call_id.as_deref(), Some(id));
        assert!(matches!(&m.content, Some(wire::Content::Text(t)) if t == content));
        assert!(m.tool_calls.is_none());
    }
}

#[test]
fn tool_call_message_without_text_has_no_content() {
    let m = Message { role: Role::Assistant, content: vec![tool_use("x", "f", "{}")] };
    let w = convert_request(ChatRequest::new("m", vec![m]), false);
    assert!(w.messages[0].content.is_none());
    assert!(w.messages[0].reasoning_content.is_none());
}

fn wire_response(choices: Vec<wire::Choice>) -> wire::Response {
    wire::Response {
        id: "resp-1".to_string(),
        model: "gpt".to_string(),
        choices,
        usage: Some(wire::Usage { prompt_tokens: 11, completion_tokens: 22, cached_tokens: Some(5) }),
    }
}

fn call(id: &str, args: &str) -> wire::ToolCall {
    wire::ToolCall {
        id: id.to_string(),
        call_type: "function".to_string(),
        function: wire::FunctionCall { name: "calc".to_string(), arguments: args.to_string() },
    }
}

#[test]
fn response_parts_and_normalized_tool_arguments() {
    let resp = wire_response(vec![wire::Choice {
        message: wire::ResponseMessage {
            content: Some("done".to_string()),
            reasoning_content: Some("thought".to_string()),
            tool_calls: Some(vec![call("c1", "{ \"a\" : 1 ,\"b\":[1, 2] }"), call("c2", "not json")]),
        },
        finish_reason: Some("tool_calls".to_string()),
    }]);
    let r = convert_response(resp);
    assert_eq!(r.id, "resp-1");
    assert_eq!(r.model, "gpt");
    assert_eq!(r.stop_reason, StopReason::ToolUse);
    let u = r.usage.unwrap();
    assert_eq!((u.input_tokens, u.output_tokens, u.cache_read_input_tokens, u.cache_creation_input_tokens), (11, 22, Some(5), None));
    assert_eq!(r.content.len(), 4);
    assert!(matches!(&r.content[0], ContentPart::Reasoning(t) if t == "thought"));
    assert!(matches!(&r.content[1], ContentPart::Text(t) if t == "done"));
    match (&r.content[2], &r.content[3]) {
        (ContentPart::ToolUse(a), ContentPart::ToolUse(b)) => {
            assert_eq!(a.id, "c1");
            assert_eq!(a.input, "{\"a\":1,\"b\":[1,2]}");
            assert_eq!(b.input, "\"not json\"");
        }
        _ => panic!("expected tool uses"),
    }
}

#[test]
fn response_finish_reasons() {
    let with = |f: Option<&str>| {
        convert_response(wire_response(vec![wire::Choice {
            message: wire::ResponseMessage { content: Some(String::new()), reasoning_content: None, tool_calls: None },
            finish_reason: f.map(|s| s.to_string()),
        }]))
    };
    assert_eq!(with(Some("stop")).stop_reason, StopReason::EndTurn);
    assert_eq!(with(Some("length")).stop_reason, StopReason::MaxTokens);
    assert_eq!(with(Some("content_filter")).stop_reason, StopReason::Unknown("content_filter".to_string()));
    assert_eq!(with(None).stop_reason, StopReason::Unknown("none".to_string()));
    // Empty text is dropped.
    assert!(with(Some("stop")).content.is_empty());
    let none = convert_response(wire::Response { id: "i".to_string(), model: "m".to_string(), choices: vec![], usage: None });
    assert_eq!(none.stop_reason, StopReason::Unknown("no_choices".to_string()));
    assert!(none.content.is_empty() && none.usage.is_none());
}

fn chunk(delta: wire::Delta, finish: Option<&str>) -> wire::StreamChunk {
    wire::StreamChunk {
        choices: vec![wire::StreamChoice { delta, finish_reason: finish.map(|s| s.to_string()) }],
        usage: None,
    }
}

fn empty_delta() -> wire::Delta {
    wire::Delta { content: None, reasoning_content: None, tool_calls: None }
}

#[test]
fn stream_done_marker_ends_the_stream() {
    assert!(matches!(parse_stream_data("[DONE]", Err("x".to_string())), SseAction::Done));
    assert!(matches!(parse_stream_data("  [DONE]\n", Err("x".to_string())), SseAction::Done));
    assert!(matches!(
        parse_stream_data("[DONE]x", Err("bad".to_string())),
        SseAction::Yield(Err(Error::Json(m))) if m == "bad"
    ));
}

#[test]
fn stream_chunks_give_events_in_priority_order() {
    let usage = wire::StreamChunk { choices: vec![], usage: Some(wire::Usage { prompt_tokens: 1, completion_tokens: 2, cached_tokens: None }) };
    assert!(matches!(parse_stream_data("{}", Ok(usage)), SseAction::Yield(Ok(StreamEvent::Usage(u))) if u.input_tokens == 1 && u.output_tokens == 2));
    let empty = wire::StreamChunk { choices: vec![], usage: None };
    assert!(matches!(parse_stream_data("{}", Ok(empty)), SseAction::Skip));
    let mut d = empty_delta();
    d.content = Some("hi".to_string());
    assert!(matches!(parse_stream_data("{}", Ok(chunk(d.clone(), Some("length")))), SseAction::Yield(Ok(StreamEvent::Done(StopReason::MaxTokens)))));
    assert!(matches!(parse_stream_data("{}", Ok(chunk(d, None))), SseAction::Yield(Ok(StreamEvent::ContentDelta(t))) if t == "hi"));
    let mut d = empty_delta();
    d.content = Some(String::new());
    d.reasoning_content = Some("hmm".to_string());
    assert!(matches!(parse_stream_data("{}", Ok(chunk(d, None))), SseAction::Yield(Ok(StreamEvent::ReasoningDelta(t))) if t == "hmm"));
    assert!(matches!(parse_stream_data("{}", Ok(chunk(empty_delta(), None))), SseAction::Skip));
}

#[test]
fn stream_tool_call_deltas() {
    let tc = |index: usize, id: Option<&str>, name: Option<&str>, args: Option<&str>| wire::DeltaToolCall {
        index,
        id: id.map(|s| s.to_string()),
        function: Some(wire::DeltaFunction { name: name.map(|s| s.to_string()), arguments: args.map(|s| s.to_string()) }),
    };
    let mut d = empty_delta();
    d.tool_calls = Some(vec![tc(0, Some("c1"), Some("calc"), Some(""))]);
    assert!(matches!(parse_stream_data("{}", Ok(chunk(d, None))),
        SseAction::Yield(Ok(StreamEvent::ToolCallStart { index: 0, id, name })) if id == "c1" && name == "calc"));
    let mut d = empty_delta();
    d.tool_calls = Some(vec![
        wire::DeltaToolCall { index: 0, id: None, function: None },
        tc(1, None, None, Some("")),
        tc(2, None, None, Some("{\"a\"")),
    ]);
    assert!(matches!(parse_stream_data("{}", Ok(chunk(d, None))),
        SseAction::Yield(Ok(StreamEvent::ToolCallDelta { index: 2, arguments_delta })) if arguments_delta == "{\"a\""));
    let mut d = empty_delta();
    d.tool_calls = Some(vec![tc(0, Some("c1"), None, None)]);
    assert!(matches!(parse_stream_data("{}", Ok(chunk(d, None))), SseAction::Skip));
}
