use ravenclaws::config::{provider_from_cli_name, provider_from_env_name, LLMProvider};

#[test]
fn test_cli_provider_mapping() {
    let test_cases = vec![
        ("litellm", LLMProvider::LiteLLM),
        ("openrouter", LLMProvider::OpenRouter),
        ("ollama", LLMProvider::Ollama),
        ("openai", LLMProvider::OpenAI),
        ("unknown", LLMProvider::LiteLLM), // default
    ];

    for (input, expected) in test_cases {
        let mapped = provider_from_cli_name(input);
        assert_eq!(mapped, expected, "Provider mapping failed for '{}'", input);
    }
}

#[test]
fn test_cli_provider_mapping_case_insensitive() {
    let test_cases = vec![
        ("OpenRouter", LLMProvider::OpenRouter),
        ("OPENAI", LLMProvider::OpenAI),
        ("Ollama", LLMProvider::Ollama),
        ("LiteLLM", LLMProvider::LiteLLM),
    ];

    for (input, expected) in test_cases {
        let mapped = provider_from_cli_name(input);
        assert_eq!(mapped, expected, "Case-insensitive mapping failed for '{}'", input);
    }
}

#[test]
fn test_cli_provider_mapping_all_variants() {
    let test_cases = vec![
        ("litellm", LLMProvider::LiteLLM),
        ("openrouter", LLMProvider::OpenRouter),
        ("ollama", LLMProvider::Ollama),
        ("openai", LLMProvider::OpenAI),
        ("LiteLLM", LLMProvider::LiteLLM),
        ("OpenRouter", LLMProvider::OpenRouter),
        ("OLLAMA", LLMProvider::Ollama),
        ("OpenAI", LLMProvider::OpenAI),
        ("", LLMProvider::LiteLLM),
        ("unknown", LLMProvider::LiteLLM),
        ("MIXED_CASE", LLMProvider::LiteLLM),
    ];

    for (input, expected) in test_cases {
        let mapped = provider_from_cli_name(input);
        assert_eq!(mapped, expected, "Mapping failed for '{}'", input);
    }
}

#[test]
fn cli_provider_mapping_extra_names() {
    assert_eq!(provider_from_cli_name("Anthropic"), LLMProvider::Anthropic);
    assert_eq!(provider_from_cli_name("openai-compatible"), LLMProvider::OpenAICompatible);
    assert_eq!(provider_from_cli_name("OPENAI_COMPATIBLE"), LLMProvider::OpenAICompatible);
    // The environment does not know the OpenAI-compatible names.
    assert_eq!(provider_from_env_name("openai-compatible"), LLMProvider::LiteLLM);
    assert_eq!(provider_from_env_name("ANTHROPIC"), LLMProvider::Anthropic);
}
