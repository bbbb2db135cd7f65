use ravenclaws::config::ConfigError;
use ravenclaws::error::{RavenClawsError, Result};
use ravenclaws::llm::LLMError;

#[test]
fn test_llm_error_variant() {
    let err = RavenClawsError::Llm(LLMError::RequestFailed("timeout".to_string()));
    assert_eq!(err.message(), "LLM error: Request failed: timeout");
}

#[test]
fn test_config_error_variant() {
    let err = RavenClawsError::Config(ConfigError::ValidationError("bad field".to_string()));
    assert_eq!(err.message(), "Configuration error: Invalid configuration: bad field");
}

#[test]
fn test_ravenfabric_error_variant() {
    let err = RavenClawsError::RavenFabric("connection refused".to_string());
    assert_eq!(err.message(), "RavenFabric error: connection refused");
}

#[test]
fn test_command_execution_error_variant() {
    let err = RavenClawsError::CommandExecution("command failed".to_string());
    assert_eq!(err.message(), "Command execution failed: command failed");
}

#[test]
fn test_security_violation_error_variant() {
    let err = RavenClawsError::SecurityViolation("unauthorized access".to_string());
    assert_eq!(err.message(), "Security violation: unauthorized access");
}

#[test]
fn test_result_type_alias() {
    let ok: i32 = 42;
    assert_eq!(ok, 42);

    let err: Result<i32> = Err(RavenClawsError::CommandExecution("fail".to_string()));
    assert!(err.is_err());
}

#[test]
fn test_io_error_variant() {
    let err = RavenClawsError::IO("file not found".to_string());
    assert!(err.message().contains("IO error"));
    assert!(err.message().contains("file not found"));
}

#[test]
fn test_error_is_debug() {
    let err = RavenClawsError::CommandExecution("test".to_string());
    let debug = format!("{:?}", err);
    assert!(debug.contains("CommandExecution"));
}

#[test]
fn test_from_llm_error_conversion() {
    let llm_err = LLMError::RequestFailed("timeout".to_string());
    let err: RavenClawsError = llm_err.into();
    assert!(err.message().contains("LLM error"));
    assert!(err.message().contains("timeout"));
}

#[test]
fn test_from_config_error_conversion() {
    let cfg_err = ConfigError::ValidationError("bad config".to_string());
    let err: RavenClawsError = cfg_err.into();
    assert!(err.message().contains("Configuration error"));
    assert!(err.message().contains("bad config"));
}

#[test]
fn test_error_source_chain() {
    let err = RavenClawsError::Llm(LLMError::AuthFailed);
    assert!(err.message().contains("Authentication failed"));
}

#[test]
fn test_ravenfabric_error_construction() {
    let err = RavenClawsError::RavenFabric("connection timeout".to_string());
    assert_eq!(err.message(), "RavenFabric error: connection timeout");
}

#[test]
fn test_security_violation_construction() {
    let err = RavenClawsError::SecurityViolation("invalid token".to_string());
    assert_eq!(err.message(), "Security violation: invalid token");
}

#[test]
fn test_result_type_alias_ok() {
    let result: Result<i32> = Ok(42);
    assert!(result.is_ok());
    assert_eq!(result.unwrap(), 42);
}

#[test]
fn test_result_type_alias_err() {
    let result: Result<i32> = Err(RavenClawsError::CommandExecution("fail".to_string()));
    assert!(result.is_err());
    assert_eq!(result.unwrap_err().message(), "Command execution failed: fail");
}

#[test]
fn test_error_into_string() {
    let err = RavenClawsError::SecurityViolation("access denied".to_string());
    let msg: String = err.message();
    assert_eq!(msg, "Security violation: access denied");
}

#[test]
fn test_error_source_chain_io() {
    let err = RavenClawsError::IO("file not found".to_string());
    let display = err.message();
    assert!(display.contains("IO error"));
    assert!(display.contains("file not found"));
}

#[test]
fn test_error_source_chain_config() {
    let err = RavenClawsError::Config(ConfigError::ValidationError("invalid".to_string()));
    let display = err.message();
    assert!(display.contains("Configuration error"));
    assert!(display.contains("invalid"));
}

#[test]
fn test_error_source_chain_llm() {
    let err = RavenClawsError::Llm(LLMError::RateLimited);
    let display = err.message();
    assert!(display.contains("LLM error"));
    assert!(display.contains("Rate limit exceeded"));
}

#[test]
fn network_error_message() {
    assert_eq!(RavenClawsError::Network("refused".to_string()).message(), "Network error: refused");
}
