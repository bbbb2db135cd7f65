use ravenclaws::config::{log_filter, run_mode, CliOverrides, Config, EnvOverrides, LLMConfig, LLMProvider, RunMode};

fn no_env() -> EnvOverrides {
    EnvOverrides { litellm_api_key: None, provider: None, endpoint: None, model: None, llms: None, ravenfabric_endpoint: None }
}

fn no_cli() -> CliOverrides {
    CliOverrides {
        provider: None,
        endpoint: None,
        model: None,
        system_prompt: None,
        token_budget: None,
        retry_max: 3,
        retry_base_delay_ms: 100,
        otel_endpoint: None,
        otel_service_name: None,
        otel_disabled: false,
    }
}

#[test]
fn env_provider_override_falls_back() {
    let mut config = Config::default();
    config.apply_env_overrides(EnvOverrides { provider: Some("something-unknown".to_string()), ..no_env() });
    assert_eq!(config.llm.provider, LLMProvider::LiteLLM);
}

#[test]
fn env_overrides_apply() {
    let mut config = Config::default();
    config.apply_env_overrides(EnvOverrides {
        litellm_api_key: Some("secret".to_string()),
        provider: Some("OLLAMA".to_string()),
        endpoint: Some("http://localhost:11434".to_string()),
        model: Some("llama3.1".to_string()),
        llms: Some(vec![LLMConfig::default()]),
        ravenfabric_endpoint: Some("https://mesh".to_string()),
    });
    assert_eq!(config.llm.api_key.as_deref(), Some("secret"));
    assert_eq!(config.llm.provider, LLMProvider::Ollama);
    assert_eq!(config.llm.endpoint, "http://localhost:11434");
    assert_eq!(config.llm.model, "llama3.1");
    assert_eq!(config.llms.len(), 1);
    assert_eq!(config.ravenfabric.endpoint.as_deref(), Some("https://mesh"));
    let before = Config::default();
    let mut same = Config::default();
    same.apply_env_overrides(no_env());
    assert_eq!(same.llm.endpoint, before.llm.endpoint);
    assert_eq!(same.llm.model, before.llm.model);
}

#[test]
fn cli_overrides_apply() {
    let mut config = Config::default();
    config.apply_cli_overrides(CliOverrides {
        provider: Some("openai-compatible".to_string()),
        endpoint: Some("https://custom.api.com".to_string()),
        model: Some("gpt-4-turbo".to_string()),
        system_prompt: Some("Be brief.".to_string()),
        token_budget: Some(5000),
        retry_max: 7,
        retry_base_delay_ms: 250,
        otel_endpoint: Some("http://otel:4317".to_string()),
        otel_service_name: Some("svc".to_string()),
        otel_disabled: true,
    });
    assert_eq!(config.llm.provider, LLMProvider::OpenAICompatible);
    assert_eq!(config.llm.endpoint, "https://custom.api.com");
    assert_eq!(config.llm.model, "gpt-4-turbo");
    assert_eq!(config.llm.system_prompt, "Be brief.");
    assert_eq!(config.llm.token_budget, Some(5000));
    assert_eq!(config.llm.retry_max, 7);
    assert_eq!(config.llm.retry_base_delay_ms, 250);
    assert_eq!(config.telemetry.otel_endpoint.as_deref(), Some("http://otel:4317"));
    assert!(config.telemetry.otel_disabled);
    let mut plain = Config::default();
    plain.apply_cli_overrides(no_cli());
    assert_eq!(plain.llm.provider, LLMProvider::LiteLLM);
    assert!(!plain.telemetry.otel_disabled);
}

#[test]
fn run_modes() {
    assert_eq!(run_mode("single"), Ok(RunMode::Single));
    assert_eq!(run_mode("swarm"), Ok(RunMode::Swarm));
    assert_eq!(run_mode("supervisor"), Ok(RunMode::Supervisor));
    assert_eq!(run_mode("orchestrate"), Ok(RunMode::Orchestrate));
    assert_eq!(
        run_mode("invalid"),
        Err("Unknown mode: invalid. Use: single, swarm, supervisor, or orchestrate".to_string())
    );
    assert_eq!(log_filter(true), "ravenclaws=debug");
    assert_eq!(log_filter(false), "ravenclaws=info");
}
