use self_llm::client::{Client, WireBody};
use self_llm::config::{Headers, LlmConfig, LlmProviderConfig, ProviderType, ONE_F32_BITS};
use self_llm::types::{ChatRequest, F32Bits, Message};

fn pairs(h: &Vec<(String, String)>) -> Vec<(&str, &str)> {
    h.iter().map(|(k, v)| (k.as_str(), v.as_str())).collect()
}

#[test]
fn llm_config_defaults_and_builders() {
    let c = LlmConfig::new(7, "kimi-k2.5", "kimi-k2.5", 98304, 258048, 262144);
    assert_eq!(c.id, 7);
    assert_eq!((c.model_name.as_str(), c.model_id.as_str()), ("kimi-k2.5", "kimi-k2.5"));
    assert_eq!((c.max_output_token, c.max_input_token, c.max_token), (98304, 258048, 262144));
    assert!(!c.thinking && !c.image_understanding && !c.struct_output && !c.tool_use);
    assert_eq!(f32::from_bits(c.temperature.bits), 1.0);
    assert_eq!(f32::from_bits(c.top_p.bits), 1.0);
    assert_eq!(ONE_F32_BITS, 1.0f32.to_bits());
    let c = c
        .thinking(true)
        .image_understanding(true)
        .struct_output(true)
        .tool_use(true)
        .temperature(F32Bits { bits: 1.0f32.to_bits() })
        .top_p(F32Bits { bits: 0.95f32.to_bits() });
    assert!(c.thinking && c.image_understanding && c.struct_output && c.tool_use);
    assert_eq!(f32::from_bits(c.top_p.bits), 0.95);
    assert_eq!(c.id, 7);
}

#[test]
fn headers_replace_values_and_keep_first_order() {
    let mut h = Headers::new();
    assert_eq!(h.get("a"), None);
    h.insert("a".to_string(), "1".to_string());
    h.insert("b".to_string(), "2".to_string());
    h.insert("a".to_string(), "3".to_string());
    assert_eq!(h.get("a"), Some("3"));
    assert_eq!(h.get("b"), Some("2"));
    assert_eq!(h.get("c"), None);
    assert_eq!(pairs(h.pairs()), vec![("a", "3"), ("b", "2")]);
    let d = h.clone();
    assert_eq!(pairs(d.pairs()), vec![("a", "3"), ("b", "2")]);
}

#[test]
fn provider_config_builders() {
    let p = LlmProviderConfig::new(1, "kimi-anthropic", "https://api.kimi.com/coding", ProviderType::Anthropic, "SECRET-REDACTED")
        .custom_header("User-Agent", "KimiCLI/1.3");
    assert_eq!(p.id, 1);
    assert_eq!(p.provider_name, "kimi-anthropic");
    assert_eq!(p.base_url, "https://api.kimi.com/coding");
    assert_eq!(p.provider_type, ProviderType::Anthropic);
    assert_eq!(p.custom_header.get("User-Agent"), Some("KimiCLI/1.3"));
    let mut h = Headers::new();
    h.insert("X".to_string(), "y".to_string());
    let p = p.custom_headers(h);
    assert_eq!(p.custom_header.get("User-Agent"), None);
    assert_eq!(p.custom_header.get("X"), Some("y"));
}

#[test]
fn openai_client_call() {
    let c = Client::openai("sk-1");
    assert_eq!(c.provider_type(), ProviderType::OpenAi);
    let call = c.prepare_call(ChatRequest::new("gpt", vec![Message::user("hi")]), true);
    assert_eq!(call.url, "https://api.openai.com/v1/chat/completions");
    assert_eq!(pairs(&call.headers), vec![("Authorization", "Bearer sk-1")]);
    match call.body {
        WireBody::OpenAi(b) => {
            assert!(b.stream);
            assert_eq!(b.model, "gpt");
        }
        _ => panic!("expected an OpenAI body"),
    }
    let c = Client::openai_with_base_url("k", "https://api.moonshot.cn/v1");
    assert_eq!(c.prepare_call(ChatRequest::new("m", vec![]), false).url, "https://api.moonshot.cn/v1/chat/completions");
}

#[test]
fn anthropic_client_call_from_config() {
    let p = LlmProviderConfig::new(2, "kimi", "https://api.kimi.com/coding", ProviderType::Anthropic, "key")
        .custom_header("User-Agent", "KimiCLI/1.3");
    let c = p.build_client();
    assert_eq!(c.provider_type(), ProviderType::Anthropic);
    let call = c.prepare_call(ChatRequest::new("k2", vec![Message::system("s"), Message::user("u")]), false);
    assert_eq!(call.url, "https://api.kimi.com/coding/v1/messages");
    assert_eq!(
        pairs(&call.headers),
        vec![("x-api-key", "key"), ("anthropic-version", "2023-06-01"), ("User-Agent", "KimiCLI/1.3")]
    );
    match call.body {
        WireBody::Anthropic(b) => {
            assert_eq!(b.system.as_deref(), Some("s"));
            assert_eq!(b.messages.len(), 1);
            assert!(!b.stream);
        }
        _ => panic!("expected an Anthropic body"),
    }
    let d = Client::anthropic("k");
    assert_eq!(d.prepare_call(ChatRequest::new("m", vec![]), false).url, "https://api.anthropic.com/v1/messages");
    let o = LlmProviderConfig::new(3, "o", "http://localhost:8080/v1", ProviderType::OpenAi, "k2").build_client();
    let call = o.prepare_call(ChatRequest::new("m", vec![]), false);
    assert_eq!(call.url, "http://localhost:8080/v1/chat/completions");
    assert_eq!(pairs(&call.headers), vec![("Authorization", "Bearer k2")]);
    let via_from = Client::from_provider(&LlmProviderConfig::new(4, "o", "b", ProviderType::OpenAi, "z"));
    assert_eq!(via_from.provider_type(), ProviderType::OpenAi);
}
