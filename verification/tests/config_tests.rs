use ravenclaws::config::{
    default_system_prompt, provider_from_lowercase_env_name, Config, ConfigError, LLMConfig, LLMProvider,
    RavenFabricConfig, RuntimeConfig, SecurityConfig, TelemetryConfig, WebSearchConfig,
};
use ravenclaws::heartbeat::HeartbeatConfig;

#[test]
fn test_llm_provider_default() {
    assert_eq!(LLMProvider::default(), LLMProvider::LiteLLM);
}

#[test]
fn test_llm_config_default() {
    let config = LLMConfig::default();
    assert_eq!(config.provider, LLMProvider::LiteLLM);
    assert_eq!(config.model, "gpt-4o-mini");
    assert_eq!(config.timeout_secs, 30);
    assert!(config.api_key.is_none());
    assert!(config.endpoint.is_empty());
    assert!(config.system_prompt.contains("RavenClaws"));
}

#[test]
fn test_system_prompt_custom() {
    let mut config = LLMConfig::default();
    config.system_prompt = "You are a helpful coding assistant.".to_string();
    assert_eq!(config.system_prompt, "You are a helpful coding assistant.");
}

#[test]
fn test_validate_missing_endpoint() {
    let config = Config {
        llm: LLMConfig {
            provider: LLMProvider::LiteLLM,
            endpoint: String::new(),
            model: "gpt-4o-mini".to_string(),
            api_key: None,
            timeout_secs: 30,
            system_prompt: default_system_prompt(),
            token_budget: None,
            retry_max: 3,
            retry_base_delay_ms: 100,
            retry_max_delay_ms: 10000,
        },
        llms: vec![],
        ravenfabric: RavenFabricConfig::default(),
        security: SecurityConfig {
            require_tls: false,
            token_lifetime_secs: 3600,
            audit_log: false,
            prompt_injection_protection: false,
        },
        runtime: RuntimeConfig::default(),
        telemetry: TelemetryConfig::default(),
        web_search: WebSearchConfig::default(),
        heartbeat: HeartbeatConfig::default(),
    };

    let result = config.validate();
    assert!(result.is_err());
    assert!(result.unwrap_err().message().contains("At least one LLM provider"));
}

#[test]
fn test_validate_tls_required() {
    let config = Config {
        llm: LLMConfig {
            provider: LLMProvider::LiteLLM,
            endpoint: "http://example.com:4000".to_string(),
            model: "gpt-4o-mini".to_string(),
            api_key: Some("key".to_string()),
            timeout_secs: 30,
            system_prompt: default_system_prompt(),
            token_budget: None,
            retry_max: 3,
            retry_base_delay_ms: 100,
            retry_max_delay_ms: 10000,
        },
        llms: vec![],
        ravenfabric: RavenFabricConfig::default(),
        security: SecurityConfig {
            require_tls: true,
            token_lifetime_secs: 3600,
            audit_log: false,
            prompt_injection_protection: false,
        },
        runtime: RuntimeConfig::default(),
        telemetry: TelemetryConfig::default(),
        web_search: WebSearchConfig::default(),
        heartbeat: HeartbeatConfig::default(),
    };

    let result = config.validate();
    assert!(result.is_err());
    assert!(result.unwrap_err().message().contains("TLS required"));
}

#[test]
fn test_validate_tls_localhost_allowed() {
    let config = Config {
        llm: LLMConfig {
            provider: LLMProvider::LiteLLM,
            endpoint: "http://localhost:4000".to_string(),
            model: "gpt-4o-mini".to_string(),
            api_key: Some("key".to_string()),
            timeout_secs: 30,
            system_prompt: default_system_prompt(),
            token_budget: None,
            retry_max: 3,
            retry_base_delay_ms: 100,
            retry_max_delay_ms: 10000,
        },
        llms: vec![],
        ravenfabric: RavenFabricConfig::default(),
        security: SecurityConfig {
            require_tls: true,
            token_lifetime_secs: 3600,
            audit_log: false,
            prompt_injection_protection: false,
        },
        runtime: RuntimeConfig::default(),
        telemetry: TelemetryConfig::default(),
        web_search: WebSearchConfig::default(),
        heartbeat: HeartbeatConfig::default(),
    };

    let result = config.validate();
    assert!(result.is_ok());
}

#[test]
fn test_validate_openai_no_endpoint_needed() {
    let config = Config {
        llm: LLMConfig {
            provider: LLMProvider::OpenAI,
            endpoint: String::new(),
            model: "gpt-4o".to_string(),
            api_key: Some("sk-key".to_string()),
            timeout_secs: 30,
            system_prompt: default_system_prompt(),
            token_budget: None,
            retry_max: 3,
            retry_base_delay_ms: 100,
            retry_max_delay_ms: 10000,
        },
        llms: vec![],
        ravenfabric: RavenFabricConfig::default(),
        security: SecurityConfig {
            require_tls: false,
            token_lifetime_secs: 3600,
            audit_log: false,
            prompt_injection_protection: false,
        },
        runtime: RuntimeConfig::default(),
        telemetry: TelemetryConfig::default(),
        web_search: WebSearchConfig::default(),
        heartbeat: HeartbeatConfig::default(),
    };

    let result = config.validate();
    assert!(result.is_err());
}

#[test]
fn test_validate_multi_provider() {
    let config = Config {
        llm: LLMConfig::default(),
        llms: vec![LLMConfig {
            provider: LLMProvider::Ollama,
            endpoint: "http://localhost:11434".to_string(),
            model: "llama3.1".to_string(),
            api_key: None,
            timeout_secs: 60,
            system_prompt: default_system_prompt(),
            token_budget: None,
            retry_max: 3,
            retry_base_delay_ms: 100,
            retry_max_delay_ms: 10000,
        }],
        ravenfabric: RavenFabricConfig::default(),
        security: SecurityConfig {
            require_tls: false,
            token_lifetime_secs: 3600,
            audit_log: false,
            prompt_injection_protection: false,
        },
        runtime: RuntimeConfig::default(),
        telemetry: TelemetryConfig::default(),
        web_search: WebSearchConfig::default(),
        heartbeat: HeartbeatConfig::default(),
    };

    let result = config.validate();
    assert!(result.is_ok());
}

#[test]
fn test_ravenfabric_config_default() {
    let config = RavenFabricConfig::default();
    assert!(config.endpoint.is_none());
    assert!(config.agent_id.is_none());
    assert!(config.remote_exec);
    assert!(config.allowed_hosts.is_empty());
}

#[test]
fn test_security_config_default() {
    let config = SecurityConfig::default();
    assert!(config.require_tls);
    assert_eq!(config.token_lifetime_secs, 3600);
    assert!(config.audit_log);
}

#[test]
fn test_runtime_config_default() {
    let config = RuntimeConfig::default();
    assert_eq!(config.workdir, "/workspace");
    assert_eq!(config.max_agents, 10);
    assert_eq!(config.health_interval_secs, 60);
}

#[test]
fn test_config_error_display() {
    let err = ConfigError::LoadError("file not found".to_string());
    assert_eq!(err.message(), "Failed to load config: file not found");

    let err = ConfigError::ValidationError("bad field".to_string());
    assert_eq!(err.message(), "Invalid configuration: bad field");

    let err = ConfigError::MissingEnvVar("API_KEY".to_string());
    assert_eq!(err.message(), "Missing required environment variable: API_KEY");
}

#[test]
fn test_validate_openrouter_no_endpoint_needed() {
    let config = Config {
        llm: LLMConfig {
            provider: LLMProvider::OpenRouter,
            endpoint: String::new(),
            model: "anthropic/sonnet-4-20250514".to_string(),
            api_key: Some("or-key".to_string()),
            timeout_secs: 30,
            system_prompt: default_system_prompt(),
            token_budget: None,
            retry_max: 3,
            retry_base_delay_ms: 100,
            retry_max_delay_ms: 10000,
        },
        llms: vec![],
        ravenfabric: RavenFabricConfig::default(),
        security: SecurityConfig {
            require_tls: false,
            token_lifetime_secs: 3600,
            audit_log: false,
            prompt_injection_protection: false,
        },
        runtime: RuntimeConfig::default(),
        telemetry: TelemetryConfig::default(),
        web_search: WebSearchConfig::default(),
        heartbeat: HeartbeatConfig::default(),
    };

    let result = config.validate();
    assert!(result.is_err());
}

#[test]
fn test_validate_ollama_needs_endpoint() {
    let config = Config {
        llm: LLMConfig {
            provider: LLMProvider::Ollama,
            endpoint: String::new(),
            model: "llama3.1".to_string(),
            api_key: None,
            timeout_secs: 30,
            system_prompt: default_system_prompt(),
            token_budget: None,
            retry_max: 3,
            retry_base_delay_ms: 100,
            retry_max_delay_ms: 10000,
        },
        llms: vec![],
        ravenfabric: RavenFabricConfig::default(),
        security: SecurityConfig {
            require_tls: false,
            token_lifetime_secs: 3600,
            audit_log: false,
            prompt_injection_protection: false,
        },
        runtime: RuntimeConfig::default(),
        telemetry: TelemetryConfig::default(),
        web_search: WebSearchConfig::default(),
        heartbeat: HeartbeatConfig::default(),
    };

    let result = config.validate();
    assert!(result.is_err());
    assert!(result.unwrap_err().message().contains("At least one LLM provider"));
}

#[test]
fn test_validate_tls_localhost_ip_allowed() {
    let config = Config {
        llm: LLMConfig {
            provider: LLMProvider::LiteLLM,
            endpoint: "http://127.0.0.1:4000".to_string(),
            model: "gpt-4o-mini".to_string(),
            api_key: Some("key".to_string()),
            timeout_secs: 30,
            system_prompt: default_system_prompt(),
            token_budget: None,
            retry_max: 3,
            retry_base_delay_ms: 100,
            retry_max_delay_ms: 10000,
        },
        llms: vec![],
        ravenfabric: RavenFabricConfig::default(),
        security: SecurityConfig {
            require_tls: true,
            token_lifetime_secs: 3600,
            audit_log: false,
            prompt_injection_protection: false,
        },
        runtime: RuntimeConfig::default(),
        telemetry: TelemetryConfig::default(),
        web_search: WebSearchConfig::default(),
        heartbeat: HeartbeatConfig::default(),
    };

    let result = config.validate();
    assert!(result.is_ok());
}

#[test]
fn test_validate_tls_wildcard_allowed() {
    let config = Config {
        llm: LLMConfig {
            provider: LLMProvider::LiteLLM,
            endpoint: "http://0.0.0.0:4000".to_string(),
            model: "gpt-4o-mini".to_string(),
            api_key: Some("key".to_string()),
            timeout_secs: 30,
            system_prompt: default_system_prompt(),
            token_budget: None,
            retry_max: 3,
            retry_base_delay_ms: 100,
            retry_max_delay_ms: 10000,
        },
        llms: vec![],
        ravenfabric: RavenFabricConfig::default(),
        security: SecurityConfig {
            require_tls: true,
            token_lifetime_secs: 3600,
            audit_log: false,
            prompt_injection_protection: false,
        },
        runtime: RuntimeConfig::default(),
        telemetry: TelemetryConfig::default(),
        web_search: WebSearchConfig::default(),
        heartbeat: HeartbeatConfig::default(),
    };

    let result = config.validate();
    assert!(result.is_ok());
}

#[test]
fn test_validate_multi_provider_with_tls() {
    let config = Config {
        llm: LLMConfig::default(),
        llms: vec![LLMConfig {
            provider: LLMProvider::Ollama,
            endpoint: "http://localhost:11434".to_string(),
            model: "llama3.1".to_string(),
            api_key: None,
            timeout_secs: 60,
            system_prompt: default_system_prompt(),
            token_budget: None,
            retry_max: 3,
            retry_base_delay_ms: 100,
            retry_max_delay_ms: 10000,
        }, LLMConfig {
            provider: LLMProvider::LiteLLM,
            endpoint: "https://litellm.example.com:4000".to_string(),
            model: "gpt-4o-mini".to_string(),
            api_key: Some("key".to_string()),
            timeout_secs: 30,
            system_prompt: default_system_prompt(),
            token_budget: None,
            retry_max: 3,
            retry_base_delay_ms: 100,
            retry_max_delay_ms: 10000,
        }],
        ravenfabric: RavenFabricConfig::default(),
        security: SecurityConfig {
            require_tls: true,
            token_lifetime_secs: 3600,
            audit_log: false,
            prompt_injection_protection: false,
        },
        runtime: RuntimeConfig::default(),
        telemetry: TelemetryConfig::default(),
        web_search: WebSearchConfig::default(),
        heartbeat: HeartbeatConfig::default(),
    };

    let result = config.validate();
    assert!(result.is_ok());
}

#[test]
fn test_validate_multi_provider_tls_failure() {
    let config = Config {
        llm: LLMConfig::default(),
        llms: vec![LLMConfig {
            provider: LLMProvider::LiteLLM,
            endpoint: "http://example.com:4000".to_string(),
            model: "gpt-4o-mini".to_string(),
            api_key: Some("key".to_string()),
            timeout_secs: 30,
            system_prompt: default_system_prompt(),
            token_budget: None,
            retry_max: 3,
            retry_base_delay_ms: 100,
            retry_max_delay_ms: 10000,
        }],
        ravenfabric: RavenFabricConfig::default(),
        security: SecurityConfig {
            require_tls: true,
            token_lifetime_secs: 3600,
            audit_log: false,
            prompt_injection_protection: false,
        },
        runtime: RuntimeConfig::default(),
        telemetry: TelemetryConfig::default(),
        web_search: WebSearchConfig::default(),
        heartbeat: HeartbeatConfig::default(),
    };

    let result = config.validate();
    assert!(result.is_err());
    assert!(result.unwrap_err().message().contains("TLS required"));
}

#[test]
fn test_ravenfabric_config_custom() {
    let config = RavenFabricConfig {
        endpoint: Some("https://fabric.example.com:8443".to_string()),
        agent_id: Some("agent-01".to_string()),
        remote_exec: false,
        allowed_hosts: vec!["10.0.0.0/8".to_string()],
    };
    assert_eq!(config.endpoint.unwrap(), "https://fabric.example.com:8443");
    assert_eq!(config.agent_id.unwrap(), "agent-01");
    assert!(!config.remote_exec);
    assert_eq!(config.allowed_hosts.len(), 1);
}

#[test]
fn test_security_config_custom() {
    let config = SecurityConfig {
        require_tls: false,
        token_lifetime_secs: 7200,
        audit_log: false,
        prompt_injection_protection: false,
    };
    assert!(!config.require_tls);
    assert_eq!(config.token_lifetime_secs, 7200);
    assert!(!config.audit_log);
}

#[test]
fn test_runtime_config_custom() {
    let config = RuntimeConfig {
        workdir: "/data".to_string(),
        max_agents: 5,
        health_interval_secs: 120,
        host: Some("127.0.0.1".to_string()),
        port: 9090,
    };
    assert_eq!(config.workdir, "/data");
    assert_eq!(config.max_agents, 5);
    assert_eq!(config.health_interval_secs, 120);
    assert_eq!(config.host, Some("127.0.0.1".to_string()));
    assert_eq!(config.port, 9090);
}

#[test]
fn test_config_load_with_provider_env_fallback() {
    let mapped = provider_from_lowercase_env_name("unknown");
    assert_eq!(mapped, LLMProvider::LiteLLM);

    let mapped = provider_from_lowercase_env_name("");
    assert_eq!(mapped, LLMProvider::LiteLLM);
}

#[test]
fn test_validate_openai_with_endpoint() {
    let config = Config {
        llm: LLMConfig {
            provider: LLMProvider::OpenAI,
            endpoint: "https://api.openai.com".to_string(),
            model: "gpt-4o".to_string(),
            api_key: Some("sk-key".to_string()),
            timeout_secs: 30,
            system_prompt: default_system_prompt(),
            token_budget: None,
            retry_max: 3,
            retry_base_delay_ms: 100,
            retry_max_delay_ms: 10000,
        },
        llms: vec![],
        ravenfabric: RavenFabricConfig::default(),
        security: SecurityConfig {
            require_tls: false,
            token_lifetime_secs: 3600,
            audit_log: false,
            prompt_injection_protection: false,
        },
        runtime: RuntimeConfig::default(),
        telemetry: TelemetryConfig::default(),
        web_search: WebSearchConfig::default(),
        heartbeat: HeartbeatConfig::default(),
    };

    let result = config.validate();
    assert!(result.is_ok());
}

#[test]
fn test_validate_openrouter_with_endpoint() {
    let config = Config {
        llm: LLMConfig {
            provider: LLMProvider::OpenRouter,
            endpoint: "https://openrouter.ai/api".to_string(),
            model: "anthropic/sonnet-4-20250514".to_string(),
            api_key: Some("or-key".to_string()),
            timeout_secs: 30,
            system_prompt: default_system_prompt(),
            token_budget: None,
            retry_max: 3,
            retry_base_delay_ms: 100,
            retry_max_delay_ms: 10000,
        },
        llms: vec![],
        ravenfabric: RavenFabricConfig::default(),
        security: SecurityConfig {
            require_tls: false,
            token_lifetime_secs: 3600,
            audit_log: false,
            prompt_injection_protection: false,
        },
        runtime: RuntimeConfig::default(),
        telemetry: TelemetryConfig::default(),
        web_search: WebSearchConfig::default(),
        heartbeat: HeartbeatConfig::default(),
    };

    let result = config.validate();
    assert!(result.is_ok());
}

#[test]
fn test_validate_https_endpoint_with_tls() {
    let config = Config {
        llm: LLMConfig {
            provider: LLMProvider::LiteLLM,
            endpoint: "https://api.example.com:4000".to_string(),
            model: "gpt-4o-mini".to_string(),
            api_key: Some("key".to_string()),
            timeout_secs: 30,
            system_prompt: default_system_prompt(),
            token_budget: None,
            retry_max: 3,
            retry_base_delay_ms: 100,
            retry_max_delay_ms: 10000,
        },
        llms: vec![],
        ravenfabric: RavenFabricConfig::default(),
        security: SecurityConfig {
            require_tls: true,
            token_lifetime_secs: 3600,
            audit_log: false,
            prompt_injection_protection: false,
        },
        runtime: RuntimeConfig::default(),
        telemetry: TelemetryConfig::default(),
        web_search: WebSearchConfig::default(),
        heartbeat: HeartbeatConfig::default(),
    };

    let result = config.validate();
    assert!(result.is_ok());
}

#[test]
fn test_config_error_missing_env_var_display() {
    let err = ConfigError::MissingEnvVar("DATABASE_URL".to_string());
    assert_eq!(err.message(), "Missing required environment variable: DATABASE_URL");
}

#[test]
fn test_validate_ollama_with_endpoint_succeeds() {
    let config = Config {
        llm: LLMConfig {
            provider: LLMProvider::Ollama,
            endpoint: "http://localhost:11434".to_string(),
            model: "llama3.1".to_string(),
            api_key: None,
            timeout_secs: 60,
            system_prompt: default_system_prompt(),
            token_budget: None,
            retry_max: 3,
            retry_base_delay_ms: 100,
            retry_max_delay_ms: 10000,
        },
        llms: vec![],
        ravenfabric: RavenFabricConfig::default(),
        security: SecurityConfig {
            require_tls: false,
            token_lifetime_secs: 3600,
            audit_log: false,
            prompt_injection_protection: false,
        },
        runtime: RuntimeConfig::default(),
        telemetry: TelemetryConfig::default(),
        web_search: WebSearchConfig::default(),
        heartbeat: HeartbeatConfig::default(),
    };

    let result = config.validate();
    assert!(result.is_ok());
}

#[test]
fn test_validate_openrouter_with_endpoint_succeeds() {
    let config = Config {
        llm: LLMConfig {
            provider: LLMProvider::OpenRouter,
            endpoint: "https://openrouter.ai/api".to_string(),
            model: "anthropic/sonnet-4-20250514".to_string(),
            api_key: Some("or-key".to_string()),
            timeout_secs: 30,
            system_prompt: default_system_prompt(),
            token_budget: None,
            retry_max: 3,
            retry_base_delay_ms: 100,
            retry_max_delay_ms: 10000,
        },
        llms: vec![],
        ravenfabric: RavenFabricConfig::default(),
        security: SecurityConfig {
            require_tls: false,
            token_lifetime_secs: 3600,
            audit_log: false,
            prompt_injection_protection: false,
        },
        runtime: RuntimeConfig::default(),
        telemetry: TelemetryConfig::default(),
        web_search: WebSearchConfig::default(),
        heartbeat: HeartbeatConfig::default(),
    };

    let result = config.validate();
    assert!(result.is_ok());
}

#[test]
fn test_validate_litellm_with_empty_endpoint_fails() {
    let config = Config {
        llm: LLMConfig {
            provider: LLMProvider::LiteLLM,
            endpoint: String::new(),
            model: "gpt-4o-mini".to_string(),
            api_key: Some("key".to_string()),
            timeout_secs: 30,
            system_prompt: default_system_prompt(),
            token_budget: None,
            retry_max: 3,
            retry_base_delay_ms: 100,
            retry_max_delay_ms: 10000,
        },
        llms: vec![],
        ravenfabric: RavenFabricConfig::default(),
        security: SecurityConfig {
            require_tls: false,
            token_lifetime_secs: 3600,
            audit_log: false,
            prompt_injection_protection: false,
        },
        runtime: RuntimeConfig::default(),
        telemetry: TelemetryConfig::default(),
        web_search: WebSearchConfig::default(),
        heartbeat: HeartbeatConfig::default(),
    };

    let result = config.validate();
    assert!(result.is_err());
    assert!(result.unwrap_err().message().contains("At least one LLM provider"));
}
