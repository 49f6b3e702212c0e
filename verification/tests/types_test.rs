use self_llm::json::json_from_arguments;
use self_llm::error::{check_status, is_success, Error};
use self_llm::types::{
    ChatRequest, ChatResponse, ContentPart, F32Bits, ImageSource, Message, Role, StopReason,
    ToolChoice, ToolResult, ToolUse, Usage,
};

fn text_of(p: &ContentPart) -> Option<&str> {
    match p {
        ContentPart::Text(t) => Some(t.as_str()),
        _ => None,
    }
}

#[test]
fn message_constructors_set_role_and_parts() {
    let m = Message::system("be brief");
    assert_eq!(m.role, Role::System);
    assert_eq!(m.content.len(), 1);
    assert_eq!(text_of(&m.content[0]), Some("be brief"));

    assert_eq!(Message::user("hi").role, Role::User);
    assert_eq!(Message::assistant("yo").role, Role::Assistant);

    let r = Message::assistant_with_reasoning("think", "answer");
    assert_eq!(r.role, Role::Assistant);
    assert!(matches!(&r.content[0], ContentPart::Reasoning(t) if t == "think"));
    assert_eq!(text_of(&r.content[1]), Some("answer"));

    let img = Message::user_with_image("look", ImageSource::Url("http://x/y.png".to_string()));
    assert_eq!(img.role, Role::User);
    assert_eq!(text_of(&img.content[0]), Some("look"));
    assert!(matches!(&img.content[1], ContentPart::Image(ImageSource::Url(u)) if u == "http://x/y.png"));
}

#[test]
fn tool_results_message_keeps_each_result_in_order() {
    let m = Message::tool_results(vec![
        ToolResult { tool_use_id: "a".to_string(), content: "1".to_string(), is_error: false },
        ToolResult { tool_use_id: "b".to_string(), content: "2".to_string(), is_error: true },
    ]);
    assert_eq!(m.role, Role::User);
    assert_eq!(m.content.len(), 2);
    match (&m.content[0], &m.content[1]) {
        (ContentPart::ToolResult(x), ContentPart::ToolResult(y)) => {
            assert_eq!((x.tool_use_id.as_str(), x.content.as_str(), x.is_error), ("a", "1", false));
            assert_eq!((y.tool_use_id.as_str(), y.content.as_str(), y.is_error), ("b", "2", true));
        }
        _ => panic!("expected tool results"),
    }
    assert!(Message::tool_results(vec![]).content.is_empty());
}

#[test]
fn chat_request_builders_set_one_field_each() {
    let r = ChatRequest::new("gpt", vec![Message::user("hi")]);
    assert_eq!(r.model, "gpt");
    assert_eq!(r.messages.len(), 1);
    assert!(r.max_tokens.is_none() && r.temperature.is_none() && r.tools.is_none());
    assert!(r.tool_choice.is_none() && r.user.is_none() && r.prompt_cache.is_none());

    let r = r
        .max_tokens(512)
        .temperature(F32Bits { bits: 0.7f32.to_bits() })
        .top_p(F32Bits { bits: 0.95f32.to_bits() })
        .tool_choice(ToolChoice::Required)
        .parallel_tool_calls(false)
        .stop_sequences(vec!["END".to_string()])
        .top_k(40)
        .user("u-1")
        .budget_tokens(2048)
        .prompt_cache(true);
    assert_eq!(r.max_tokens, Some(512));
    assert_eq!(f32::from_bits(r.temperature.unwrap().bits), 0.7f32);
    assert_eq!(f32::from_bits(r.top_p.unwrap().bits), 0.95f32);
    assert_eq!(r.tool_choice, Some(ToolChoice::Required));
    assert_eq!(r.parallel_tool_calls, Some(false));
    assert_eq!(r.stop_sequences, Some(vec!["END".to_string()]));
    assert_eq!(r.top_k, Some(40));
    assert_eq!(r.user.as_deref(), Some("u-1"));
    assert_eq!(r.budget_tokens, Some(2048));
    assert_eq!(r.prompt_cache, Some(true));
    assert_eq!(r.model, "gpt");
}

fn response(content: Vec<ContentPart>) -> ChatResponse {
    ChatResponse {
        id: "id".to_string(),
        model: "m".to_string(),
        content,
        usage: None,
        stop_reason: StopReason::EndTurn,
    }
}

#[test]
fn response_accessors_find_first_text_and_reasoning() {
    let r = response(vec![
        ContentPart::Reasoning("r1".to_string()),
        ContentPart::ToolUse(ToolUse { id: "t1".to_string(), name: "f".to_string(), input: "{}".to_string() }),
        ContentPart::Text("first".to_string()),
        ContentPart::Reasoning("r2".to_string()),
        ContentPart::Text("second".to_string()),
        ContentPart::ToolUse(ToolUse { id: "t2".to_string(), name: "g".to_string(), input: "[1]".to_string() }),
    ]);
    assert_eq!(r.text(), Some("first"));
    assert_eq!(r.reasoning(), Some("r1"));
    let uses = r.tool_uses();
    assert_eq!(uses.len(), 2);
    assert_eq!((uses[0].id.as_str(), uses[0].name.as_str()), ("t1", "f"));
    assert_eq!((uses[1].id.as_str(), uses[1].input.as_str()), ("t2", "[1]"));
}

#[test]
fn response_accessors_on_empty_content() {
    let r = response(vec![]);
    assert_eq!(r.text(), None);
    assert_eq!(r.reasoning(), None);
    assert!(r.tool_uses().is_empty());
}

#[test]
fn usage_is_plain_data() {
    let u = Usage { input_tokens: 3, output_tokens: 4, cache_read_input_tokens: Some(1), cache_creation_input_tokens: None };
    assert_eq!(u, u.clone());
}

#[test]
fn status_check_accepts_2xx_only() {
    assert_eq!(check_status(200, "ok".to_string()), Ok(()));
    assert_eq!(check_status(299, String::new()), Ok(()));
    assert_eq!(
        check_status(404, "missing".to_string()),
        Err(Error::Api { status: 404, message: "missing".to_string() })
    );
    assert_eq!(
        check_status(199, "x".to_string()),
        Err(Error::Api { status: 199, message: "x".to_string() })
    );
    assert!(check_status(500, String::new()).is_err());
}

#[test]
fn success_statuses_are_2xx() {
    assert!(is_success(200) && is_success(204) && is_success(299));
    assert!(!is_success(199) && !is_success(300) && !is_success(404) && !is_success(0));
}

#[test]
fn arguments_that_are_not_json_become_a_json_string() {
    assert_eq!(json_from_arguments("{ \"a\" : [1, 2] }"), "{\"a\":[1,2]}");
    assert_eq!(json_from_arguments("plain"), "\"plain\"");
    assert_eq!(
        json_from_arguments("a\"b\\c\nd\te\r\u{8}\u{c}\u{1}\u{1f} é"),
        "\"a\\\"b\\\\c\\nd\\te\\r\\b\\f\\u0001\\u001f é\""
    );
    assert_eq!(json_from_arguments(""), "\"\"");
}
