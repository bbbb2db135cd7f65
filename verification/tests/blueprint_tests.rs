use ravenclaws::blueprint::{AgentBlueprint, BlueprintError, BlueprintPersona};
use ravenclaws::config::{Config, LLMConfig, LLMProvider};

fn researcher() -> AgentBlueprint {
    AgentBlueprint {
        name: "researcher".to_string(),
        description: Some("Fetches and summarizes web sources".to_string()),
        version: Some("1.0.0".to_string()),
        persona: BlueprintPersona { system_prompt: "You are a thorough research assistant.".to_string() },
        llm: Some(LLMConfig {
            provider: LLMProvider::OpenAICompatible,
            endpoint: "http://localhost:11434".to_string(),
            model: "llama3.1".to_string(),
            ..LLMConfig::default()
        }),
        tools: vec!["web_fetch".to_string(), "web_search".to_string()],
        require_approval: false,
        max_iterations: 5,
        security: None,
    }
}

#[test]
fn test_defaults() {
    let bp = AgentBlueprint::default();
    assert_eq!(bp.name, "assistant");
    assert_eq!(bp.max_iterations, 10);
    assert!(bp.llm.is_none());
    assert!(bp.security.is_none());
    assert!(bp.tools.is_empty());
}

#[test]
fn test_validate_rejects_empty_name() {
    let bp = AgentBlueprint { name: "   ".to_string(), ..Default::default() };
    assert!(bp.validate().is_err());
}

#[test]
fn test_validate_rejects_zero_iterations() {
    let bp = AgentBlueprint { max_iterations: 0, ..Default::default() };
    assert!(bp.validate().is_err());
}

#[test]
fn test_to_config_keeps_base_when_no_llm() {
    let bp = AgentBlueprint { name: "plain".to_string(), ..Default::default() };
    let base = Config::default();
    let cfg = bp.to_config(Some(&base));
    // No LLM override → falls back to base.llm (default endpoint).
    assert_eq!(cfg.llm.endpoint, base.llm.endpoint);
}

#[test]
fn test_to_config_overrides_llm_and_persona() {
    let bp = researcher();
    let cfg = bp.to_config(None);
    assert_eq!(cfg.llm.system_prompt, "You are a thorough research assistant.");
    assert_eq!(cfg.llm.model, "llama3.1");
    assert_eq!(cfg.llm.provider, LLMProvider::OpenAICompatible);
    assert_eq!(cfg.llm.endpoint, "http://localhost:11434");
}

#[test]
fn test_enabled_tools() {
    let bp = researcher();
    assert_eq!(bp.enabled_tools(), &["web_fetch", "web_search"]);
}

#[test]
fn blueprint_validate_accepts_good_blueprint() {
    assert!(researcher().validate().is_ok());
}

#[test]
fn blueprint_validate_messages() {
    let blank = AgentBlueprint { name: " \t ".to_string(), max_iterations: 0, ..Default::default() };
    match blank.validate() {
        Err(BlueprintError::Validation(m)) => assert_eq!(m, "blueprint name must not be empty"),
        _ => panic!("expected a validation error"),
    }
    let zero = AgentBlueprint { max_iterations: 0, ..Default::default() };
    match zero.validate() {
        Err(e) => assert_eq!(e.message(), "Invalid blueprint: max_iterations must be >= 1"),
        _ => panic!("expected a validation error"),
    }
    assert_eq!(BlueprintError::Parse("x".to_string()).message(), "Failed to parse blueprint: x");
}

#[test]
fn blueprint_persona_replaces_system_prompt_of_base_model() {
    let bp = AgentBlueprint {
        persona: BlueprintPersona { system_prompt: "Be brief.".to_string() },
        ..Default::default()
    };
    let base = Config::default();
    let cfg = bp.to_config(Some(&base));
    assert_eq!(cfg.llm.system_prompt, "Be brief.");
    assert_eq!(cfg.llm.model, base.llm.model);
    assert_eq!(cfg.security.require_tls, base.security.require_tls);
}
