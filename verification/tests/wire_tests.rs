use ravenclaws::config::{LLMConfig, LLMProvider};
use ravenclaws::llm::{ChatMessage, ChatResponse, ContentPart, LLMError, OpenAICompatibleProvider, TokenBudget, Usage};
use ravenclaws::wire::{
    anthropic_api_key, anthropic_request_parts, anthropic_response, circuit_open_error, ollama_chat_url,
    ollama_response, provider_headers, reply_error, serialize_messages_openai, AnthropicBlock,
    FallbackStep, ProviderFallbackChain,
};

#[test]
fn openai_message_json() {
    let m = ChatMessage::new("user", "hi \"there\"");
    assert_eq!(m.to_openai_message(), "{\"content\":\"hi \\\"there\\\"\",\"role\":\"user\"}");
    let mm = ChatMessage::with_images("user", "look", vec!["data:image/png;base64,QUJD".to_string()]);
    let expected = "{\"content\":[{\"text\":\"look\",\"type\":\"text\"},{\"image_url\":{\"url\":\"data:image/png;base64,QUJD\"},\"type\":\"image_url\"}],\"role\":\"user\"}";
    assert_eq!(mm.to_openai_message(), expected);
    let v: serde_json::Value = serde_json::from_str(&mm.to_openai_message()).unwrap();
    assert_eq!(v["content"][1]["image_url"]["url"], "data:image/png;base64,QUJD");
    assert_eq!(serialize_messages_openai(&[m.clone(), m]), format!("[{0},{0}]", "{\"content\":\"hi \\\"there\\\"\",\"role\":\"user\"}"));
    assert_eq!(serialize_messages_openai(&[]), "[]");
}

#[test]
fn anthropic_message_json() {
    let mm = ChatMessage::with_images(
        "user",
        "see",
        vec!["data:image/jpeg;base64,/9j/".to_string(), "https://example.com/a.png".to_string()],
    );
    let v: serde_json::Value = serde_json::from_str(&mm.to_anthropic_message()).unwrap();
    assert_eq!(v["role"], "user");
    assert_eq!(v["content"][0]["type"], "text");
    assert_eq!(v["content"][1]["type"], "image");
    assert_eq!(v["content"][1]["source"]["media_type"], "image/jpeg");
    assert_eq!(v["content"][1]["source"]["data"], "/9j/");
    assert_eq!(v["content"][2]["text"], "[Image: https://example.com/a.png]");
    assert_eq!(ContentPart::text("t").to_anthropic_value(), "{\"text\":\"t\",\"type\":\"text\"}");
}

#[test]
fn ollama_message_json() {
    let plain = ChatMessage::new("user", "hi");
    assert_eq!(plain.to_ollama_message(), "{\"content\":\"hi\",\"role\":\"user\"}");
    let mm = ChatMessage::with_images("user", "look", vec!["data:image/png;base64,QUJD".to_string()]);
    assert_eq!(mm.to_ollama_message(), "{\"content\":\"look\",\"images\":[\"QUJD\"],\"role\":\"user\"}");
}

#[test]
fn anthropic_request_takes_system_apart() {
    let ms = vec![
        ChatMessage::new("system", "be brief"),
        ChatMessage::new("user", "hi"),
        ChatMessage::new("system", "second"),
        ChatMessage::new("assistant", "hello"),
    ];
    let (system, rest) = anthropic_request_parts(ms);
    assert_eq!(system.as_deref(), Some("be brief"));
    assert_eq!(rest.len(), 2);
    assert_eq!(rest[0].content, "hi");
    assert_eq!(rest[1].content, "hello");
    let (none, all) = anthropic_request_parts(vec![ChatMessage::new("user", "x")]);
    assert!(none.is_none());
    assert_eq!(all.len(), 1);
}

#[test]
fn anthropic_reply_conversion() {
    let blocks = vec![
        AnthropicBlock::Text { text: "Hello ".to_string() },
        AnthropicBlock::ToolUse { id: "tu1".to_string(), name: "shell_exec".to_string(), input_json: "{\"command\":\"ls\"}".to_string() },
        AnthropicBlock::Text { text: "world".to_string() },
    ];
    let r = anthropic_response("msg_1".to_string(), "m".to_string(), 7, blocks, Some("end_turn".to_string()), Some((10, 5)));
    assert_eq!(r.object, "chat.completion");
    assert_eq!(r.choices[0].message.content, "Hello world");
    assert_eq!(r.choices[0].message.role, "assistant");
    let calls = r.choices[0].tool_calls.as_ref().unwrap();
    assert_eq!(calls.len(), 1);
    assert_eq!(calls[0].call_type, "function");
    assert_eq!(calls[0].function.arguments, "{\"command\":\"ls\"}");
    assert_eq!(r.usage.unwrap().total_tokens, 15);
    let plain = anthropic_response("id".to_string(), "m".to_string(), 0, vec![], None, None);
    assert!(plain.choices[0].tool_calls.is_none());
    assert_eq!(plain.choices[0].message.content, "");
    assert!(plain.usage.is_none());
}

#[test]
fn anthropic_key_required() {
    let config = LLMConfig { provider: LLMProvider::Anthropic, api_key: None, ..LLMConfig::default() };
    assert!(matches!(anthropic_api_key(&config), Err(LLMError::AuthFailed)));
    let with_key = LLMConfig { api_key: Some("k".to_string()), ..config };
    assert_eq!(anthropic_api_key(&with_key).unwrap(), "k");
}

#[test]
fn ollama_shapes() {
    assert_eq!(ollama_chat_url("http://localhost:11434/"), "http://localhost:11434/api/chat");
    let r = ollama_response("abc", 3, "llama".to_string(), ChatMessage::new("assistant", "hi"), true);
    assert_eq!(r.id, "ollama-abc");
    assert_eq!(r.choices[0].finish_reason.as_deref(), Some("stop"));
    let r2 = ollama_response("abc", 3, "llama".to_string(), ChatMessage::new("assistant", "hi"), false);
    assert!(r2.choices[0].finish_reason.is_none());
}

#[test]
fn failed_reply_errors() {
    assert!(matches!(reply_error(401, "401 Unauthorized", None), LLMError::AuthFailed));
    assert!(matches!(reply_error(429, "429 Too Many Requests", None), LLMError::RateLimited));
    assert_eq!(
        reply_error(500, "500 Internal Server Error", Some("boom".to_string())).message(),
        "Request failed: 500 Internal Server Error: boom"
    );
    assert_eq!(reply_error(502, "502 Bad Gateway", None).message(), "Request failed: 502 Bad Gateway: Unknown error");
    assert_eq!(circuit_open_error("openai").message(), "Circuit breaker open for provider: openai");
}

#[test]
fn openrouter_headers() {
    let h = provider_headers(OpenAICompatibleProvider::OpenRouter);
    assert_eq!(h[0], ("HTTP-Referer".to_string(), "https://github.com/egkristi/RavenClaws".to_string()));
    assert_eq!(h[1], ("X-Title".to_string(), "RavenClaws".to_string()));
    assert!(provider_headers(OpenAICompatibleProvider::OpenAI).is_empty());
}

#[test]
fn test_provider_fallback_chain_creation() {
    let configs = vec![
        LLMConfig { provider: LLMProvider::LiteLLM, ..LLMConfig::default() },
        LLMConfig { provider: LLMProvider::Ollama, ..LLMConfig::default() },
    ];
    let chain = ProviderFallbackChain::new(configs);
    assert_eq!(chain.configs.len(), 2);
    assert_eq!(chain.provider_names(), vec!["LiteLLM".to_string(), "Ollama".to_string()]);
    assert!(chain.before_request().is_ok());
}

#[test]
fn fallback_chain_budget() {
    let mut chain = ProviderFallbackChain::new(vec![LLMConfig::default()]).with_token_budget(TokenBudget::new(800));
    assert!(chain.before_request().is_ok());
    chain.record_reply(Some(Usage { prompt_tokens: 200, completion_tokens: 200, total_tokens: 400 }));
    assert!(matches!(chain.before_request(), Err(LLMError::TokenBudgetExceeded)));
    assert!(matches!(ProviderFallbackChain::exhausted(None), LLMError::AllProvidersFailed));
    assert!(matches!(ProviderFallbackChain::exhausted(Some(LLMError::RateLimited)), LLMError::RateLimited));
}

#[test]
fn wire_request_bodies() {
    let msgs = vec![ravenclaws::llm::ChatMessage::new("user", "hi")];
    assert_eq!(
        ravenclaws::wire::openai_request_body("m", &msgs),
        "{\"model\":\"m\",\"messages\":[{\"content\":\"hi\",\"role\":\"user\"}],\"temperature\":0.7,\"max_tokens\":2048}"
    );
    assert_eq!(
        ravenclaws::wire::ollama_request_body("m", &msgs),
        "{\"model\":\"m\",\"messages\":[{\"content\":\"hi\",\"role\":\"user\"}],\"stream\":false}"
    );
    assert_eq!(
        ravenclaws::wire::anthropic_request_body("m", Some("s"), &msgs),
        "{\"model\":\"m\",\"max_tokens\":2048,\"messages\":[{\"content\":\"hi\",\"role\":\"user\"}],\"system\":\"s\",\"temperature\":0.7}"
    );
    assert_eq!(
        ravenclaws::wire::anthropic_request_body("m", None, &[]),
        "{\"model\":\"m\",\"max_tokens\":2048,\"messages\":[],\"temperature\":0.7}"
    );
}

#[test]
fn fallback_chain_moves_on_until_a_reply() {
    let mut chain = ProviderFallbackChain::new(vec![LLMConfig::default(), LLMConfig::default()])
        .with_token_budget(TokenBudget::new(1000));
    assert!(matches!(chain.start(), FallbackStep::Ask(0)));
    assert!(matches!(chain.after_provider(0, Err(LLMError::RateLimited)), FallbackStep::Ask(1)));
    let reply = ChatResponse {
        id: "r".to_string(),
        object: "chat.completion".to_string(),
        created: 0,
        model: "m".to_string(),
        choices: vec![],
        usage: Some(Usage { prompt_tokens: 1, completion_tokens: 2, total_tokens: 3 }),
    };
    match chain.after_provider(1, Ok(reply)) {
        FallbackStep::Done(Ok(r)) => assert_eq!(r.id, "r"),
        _ => panic!("expected the reply"),
    }
    assert_eq!(chain.token_budget.as_ref().unwrap().used_tokens, 3);
    // The last provider's error ends the chain.
    assert!(matches!(chain.after_provider(1, Err(LLMError::AuthFailed)), FallbackStep::Done(Err(LLMError::AuthFailed))));
    let empty = ProviderFallbackChain::new(vec![]);
    assert!(matches!(empty.start(), FallbackStep::Done(Err(LLMError::AllProvidersFailed))));
}
