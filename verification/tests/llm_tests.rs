use ravenclaws::config::LLMProvider;
use ravenclaws::error::RavenClawsError;
use ravenclaws::llm::{
    anthropic_part, auth_header, chat_endpoint, classify_status, client_kind, data_uri_parts, image_file_data_uri,
    image_mime, next_client_index, AnthropicPart, AuthHeader, ChatMessage, CircuitBreaker, CircuitState,
    ClientKind, ContentPart, LLMError, OpenAICompatibleProvider, RequestStep, RetryConfig, StatusClass,
    TokenBudget,
};

#[test]
fn test_openai_compatible_provider_defaults() {
    assert_eq!(OpenAICompatibleProvider::LiteLLM.default_endpoint(), "http://localhost:4000");
    assert_eq!(OpenAICompatibleProvider::OpenAI.default_endpoint(), "https://api.openai.com");
    assert_eq!(OpenAICompatibleProvider::OpenRouter.default_endpoint(), "https://openrouter.ai");
}

#[test]
fn test_openai_compatible_provider_names() {
    assert_eq!(OpenAICompatibleProvider::LiteLLM.name(), "litellm");
    assert_eq!(OpenAICompatibleProvider::OpenAI.name(), "openai");
    assert_eq!(OpenAICompatibleProvider::OpenRouter.name(), "openrouter");
}

#[test]
fn test_openai_compatible_requires_custom_headers() {
    assert!(!OpenAICompatibleProvider::LiteLLM.requires_custom_headers());
    assert!(OpenAICompatibleProvider::OpenRouter.requires_custom_headers());
    assert!(!OpenAICompatibleProvider::OpenAI.requires_custom_headers());
}

#[test]
fn test_retry_config_delay_calculation() {
    let config = RetryConfig { max_retries: 3, base_delay_ms: 100, max_delay_ms: 10000, jitter_percent: 0 };
    // Exponential backoff: 100, 200, 400, 800...
    assert_eq!(config.delay_for_attempt(0), 100);
    assert_eq!(config.delay_for_attempt(1), 200);
    assert_eq!(config.delay_for_attempt(2), 400);
}

#[test]
fn test_retry_config_max_delay_cap() {
    let config = RetryConfig { max_retries: 10, base_delay_ms: 100, max_delay_ms: 1000, jitter_percent: 0 };
    assert!(config.delay_for_attempt(10) <= 1000);
}

#[test]
fn test_circuit_breaker_state_transitions() {
    let mut cb = CircuitBreaker::new(30);

    // Initially closed
    assert_eq!(cb.state, CircuitState::Closed);
    assert!(cb.can_execute());

    // Record 5 failures → should open
    for _ in 0..5 {
        cb.record_failure();
    }
    assert_eq!(cb.state, CircuitState::Open);
    assert!(!cb.can_execute());
}

#[test]
fn llm_test_circuit_breaker_success_resets() {
    let mut cb = CircuitBreaker::new(30);

    // Record 3 failures
    for _ in 0..3 {
        cb.record_failure();
    }
    assert_eq!(cb.failure_count, 3);

    // Record success → should reset
    cb.record_success();
    assert_eq!(cb.failure_count, 0);
    assert_eq!(cb.state, CircuitState::Closed);
}

#[test]
fn test_token_budget_tracking() {
    let mut budget = TokenBudget::new(1000);

    assert_eq!(budget.remaining(), 1000);
    assert!(budget.can_spend(500));

    budget.record_usage(300);
    assert_eq!(budget.remaining(), 700);
    assert!(budget.can_spend(500));

    budget.record_usage(500);
    assert_eq!(budget.remaining(), 200);
    assert!(!budget.can_spend(500));
}

#[test]
fn test_multi_model_next_client_round_robin() {
    // Start at index 0 of two clients: the next is index 1, then it wraps to 0.
    assert_eq!(next_client_index(0, 2), Some(1));
    assert_eq!(next_client_index(1, 2), Some(0));
}

#[test]
fn test_multi_model_next_client_empty() {
    assert_eq!(next_client_index(0, 0), None);
}

#[test]
fn next_client_index_without_clients_ignores_last_index() {
    assert_eq!(next_client_index(usize::MAX, 0), None);
}

#[test]
fn test_multi_model_next_client_single() {
    assert_eq!(next_client_index(0, 1), Some(0));
}

#[test]
fn test_llm_error_display() {
    let err = LLMError::RequestFailed("timeout".to_string());
    assert_eq!(err.message(), "Request failed: timeout");

    let err = LLMError::AuthFailed;
    assert_eq!(err.message(), "Authentication failed");

    let err = LLMError::RateLimited;
    assert_eq!(err.message(), "Rate limit exceeded");

    let err = LLMError::InvalidResponse("bad json".to_string());
    assert_eq!(err.message(), "Invalid response: bad json");

    let err = LLMError::ProviderNotSupported("custom".to_string());
    assert_eq!(err.message(), "Provider not supported: custom");
}

#[test]
fn test_llm_error_is_debug() {
    let err = LLMError::RequestFailed("test".to_string());
    let debug = format!("{:?}", err);
    assert!(debug.contains("RequestFailed"));
}

#[test]
fn test_llm_error_into_boxed() {
    let err = LLMError::AuthFailed;
    let boxed: Box<LLMError> = Box::new(err);
    assert!(boxed.message().contains("Authentication failed"));
}

#[test]
fn test_llm_error_into_string() {
    let err = LLMError::RateLimited;
    let msg: String = err.message();
    assert_eq!(msg, "Rate limit exceeded");
}

#[test]
fn test_create_client_all_providers() {
    assert_eq!(client_kind(LLMProvider::LiteLLM), ClientKind::OpenAICompatible(OpenAICompatibleProvider::LiteLLM));
    assert_eq!(
        client_kind(LLMProvider::OpenRouter),
        ClientKind::OpenAICompatible(OpenAICompatibleProvider::OpenRouter)
    );
    assert_eq!(client_kind(LLMProvider::Ollama), ClientKind::Ollama);
    assert_eq!(client_kind(LLMProvider::OpenAI), ClientKind::OpenAICompatible(OpenAICompatibleProvider::OpenAI));
    assert_eq!(client_kind(LLMProvider::Anthropic), ClientKind::Anthropic);
    assert_eq!(
        client_kind(LLMProvider::OpenAICompatible),
        ClientKind::OpenAICompatible(OpenAICompatibleProvider::Generic)
    );
}

// ── Additional scenarios ────────────────────────────────────────────────

#[test]
fn llm_error_other_messages() {
    assert_eq!(LLMError::TokenBudgetExceeded.message(), "Token budget exceeded");
    assert_eq!(LLMError::AllProvidersFailed.message(), "All providers failed after retries");
    assert_eq!(LLMError::CircuitBreakerOpen("x".to_string()).message(), "Circuit breaker open for provider: x");
}

#[test]
fn retry_delay_with_jitter_stays_in_range() {
    let config = RetryConfig::default();
    for attempt in 0..5u32 {
        let d = config.delay_for_attempt(attempt);
        let capped = std::cmp::min(100u64 << attempt, 10000);
        assert!(d >= 100);
        assert!(d <= capped + capped / 2);
    }
}

#[test]
fn failed_request_decisions() {
    let config = RetryConfig::default();
    assert!(matches!(config.after_failed_request(0, LLMError::AuthFailed), RequestStep::Fail(LLMError::AuthFailed)));
    assert!(matches!(config.after_failed_request(1, LLMError::RateLimited), RequestStep::Retry { attempt: 1, delay_ms: Some(_) }));
    assert!(matches!(config.after_failed_request(3, LLMError::RateLimited), RequestStep::Fail(LLMError::RateLimited)));
}

#[test]
fn circuit_half_opens_after_open_duration() {
    let mut cb = CircuitBreaker::new(30);
    for _ in 0..5 {
        cb.record_failure();
    }
    assert!(!cb.can_execute_after(Some(1_000_000_000)));
    assert!(cb.can_execute_after(Some(30_000_000_000)));
    assert_eq!(cb.state, CircuitState::HalfOpen);
}

#[test]
fn status_classes() {
    assert_eq!(classify_status(200), StatusClass::Success);
    assert_eq!(classify_status(204), StatusClass::Success);
    assert_eq!(classify_status(401), StatusClass::Unauthorized);
    assert_eq!(classify_status(429), StatusClass::TooManyRequests);
    assert_eq!(classify_status(500), StatusClass::Failed);
}

#[test]
fn chat_endpoints() {
    assert_eq!(chat_endpoint(OpenAICompatibleProvider::LiteLLM, ""), "http://localhost:4000/v1/chat/completions");
    assert_eq!(
        chat_endpoint(OpenAICompatibleProvider::OpenAI, "https://example.com//"),
        "https://example.com/v1/chat/completions"
    );
    assert_eq!(
        chat_endpoint(OpenAICompatibleProvider::Azure, "https://r.openai.azure.com"),
        "https://r.openai.azure.com/v1/chat/completions?api-version=2024-02-15-preview"
    );
}

#[test]
fn auth_headers() {
    assert_eq!(auth_header(OpenAICompatibleProvider::OpenAI, &None), AuthHeader::NoKey);
    assert_eq!(
        auth_header(OpenAICompatibleProvider::OpenAI, &Some("k".to_string())),
        AuthHeader::Bearer("Bearer k".to_string())
    );
    assert_eq!(auth_header(OpenAICompatibleProvider::Azure, &Some("k".to_string())), AuthHeader::ApiKey("k".to_string()));
}

#[test]
fn image_mimes() {
    assert_eq!(image_mime("png"), Some("image/png"));
    assert_eq!(image_mime("jpeg"), Some("image/jpeg"));
    assert_eq!(image_mime("jpg"), Some("image/jpeg"));
    assert_eq!(image_mime("bmp"), None);
}

#[test]
fn image_file_data_uri_encodes_bytes() {
    let r = image_file_data_uri("a.PNG", Some("PNG"), b"hi").unwrap();
    assert_eq!(r, "data:image/png;base64,aGk=");
    match image_file_data_uri("a.bmp", Some("bmp"), b"hi") {
        Err(RavenClawsError::CommandExecution(m)) => {
            assert_eq!(m, "Unsupported image format: 'a.bmp'. Supported: png, jpg, jpeg, gif, webp")
        },
        _ => panic!("expected an error"),
    }
    assert!(image_file_data_uri("noext", None, b"").is_err());
}

#[test]
fn data_uris_split_and_convert() {
    assert_eq!(
        data_uri_parts("data:image/png;base64,AAAA"),
        Some(("image/png".to_string(), "AAAA".to_string()))
    );
    assert_eq!(data_uri_parts("https://x/y.png"), None);
    let img = ContentPart::image("data:image/gif;base64,R0lG".to_string());
    assert_eq!(
        anthropic_part(&img),
        AnthropicPart::Image { media_type: "image/gif".to_string(), data: "R0lG".to_string() }
    );
    let remote = ContentPart::image("https://x/y.png".to_string());
    assert_eq!(anthropic_part(&remote), AnthropicPart::Text("[Image: https://x/y.png]".to_string()));
}

#[test]
fn multimodal_message_images_for_ollama() {
    let m = ChatMessage::with_images("user", "look", vec!["data:image/png;base64,QUJD".to_string()]);
    assert_eq!(m.content, "look");
    assert_eq!(m.ollama_images(), Some(vec!["QUJD".to_string()]));
    assert_eq!(ChatMessage::new("user", "plain").ollama_images(), None);
}

#[test]
fn test_circuit_breaker_stays_closed_below_threshold() {
    let mut cb = CircuitBreaker::new(30);
    for expected in 1..=4u32 {
        cb.record_failure();
        assert_eq!(cb.failure_count, expected);
        assert_eq!(cb.state, CircuitState::Closed);
    }
    cb.record_failure();
    assert_eq!(cb.state, CircuitState::Open);
    cb.record_failure();
    assert_eq!(cb.failure_count, 6);
    assert_eq!(cb.state, CircuitState::Open);
}

#[test]
fn test_token_budget_saturates() {
    let mut budget = TokenBudget::new(10);
    budget.record_usage(u32::MAX);
    budget.record_usage(5);
    assert_eq!(budget.used_tokens, u32::MAX);
    assert_eq!(budget.remaining(), 0);
    assert!(budget.can_spend(0));
    assert!(!budget.can_spend(1));
}

#[test]
fn test_response_chunk_takes_first_choice() {
    let mut reply = ravenclaws::llm::ChatResponse {
        id: "r1".to_string(),
        object: "chat.completion".to_string(),
        created: 0,
        model: "m".to_string(),
        choices: vec![ravenclaws::llm::Choice {
            index: 0,
            message: ChatMessage::new("assistant", "hello"),
            finish_reason: Some("stop".to_string()),
            tool_calls: None,
        }],
        usage: None,
    };
    let chunk = ravenclaws::llm::response_chunk(&reply);
    assert_eq!(chunk.content, "hello");
    assert_eq!(chunk.finish_reason.as_deref(), Some("stop"));
    reply.choices.clear();
    let chunk = ravenclaws::llm::response_chunk(&reply);
    assert_eq!(chunk.content, "");
    assert!(chunk.finish_reason.is_none());
}

#[test]
fn retry_delay_follows_backoff() {
    let config = RetryConfig { max_retries: 100, base_delay_ms: 100, max_delay_ms: 10000, jitter_percent: 0 };
    match config.after_failed_request(2, LLMError::RateLimited) {
        RequestStep::Retry { attempt, delay_ms } => {
            assert_eq!(attempt, 2);
            assert_eq!(delay_ms, Some(400));
        },
        _ => panic!("expected a retry"),
    }
    // base · 2^70 does not fit in 64 bits: retried without a computed delay.
    match config.after_failed_request(70, LLMError::RateLimited) {
        RequestStep::Retry { delay_ms, .. } => assert_eq!(delay_ms, None),
        _ => panic!("expected a retry"),
    }
}
