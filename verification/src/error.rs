//! The library-wide error type.

use vstd::prelude::*;
use crate::config::{ConfigError, config_error_text};
use crate::llm::{LLMError, llm_error_text};
use crate::text::{push_str, string_from_chars};

verus! {

/// Errors of the agent runtime.
#[derive(Debug)]
pub enum RavenClawsError {
    /// An LLM provider failed.
    Llm(LLMError),
    /// The configuration is unusable.
    Config(ConfigError),
    /// The RavenFabric mesh failed.
    RavenFabric(String),
    /// A network call failed (its message).
    Network(String),
    /// An I/O operation failed (its message).
    IO(String),
    /// A command or task could not be carried out.
    CommandExecution(String),
    /// A security rule stopped the operation.
    SecurityViolation(String),
}

/// Results of the agent runtime.
pub type Result<T> = core::result::Result<T, RavenClawsError>;

/// The text shown for an error.
pub open spec fn error_text(e: RavenClawsError) -> Seq<char> {
    match e {
        RavenClawsError::Llm(inner) => "LLM error: "@ + llm_error_text(inner),
        RavenClawsError::Config(inner) => "Configuration error: "@ + config_error_text(inner),
        RavenClawsError::RavenFabric(m) => "RavenFabric error: "@ + m@,
        RavenClawsError::Network(m) => "Network error: "@ + m@,
        RavenClawsError::IO(m) => "IO error: "@ + m@,
        RavenClawsError::CommandExecution(m) => "Command execution failed: "@ + m@,
        RavenClawsError::SecurityViolation(m) => "Security violation: "@ + m@,
    }
}

impl RavenClawsError {
    /// The human-readable message of this error.
    pub fn message(&self) -> (s: String)
        ensures
            s@ == error_text(*self),
    {
        let mut v: Vec<char> = Vec::new();
        match self {
            RavenClawsError::Llm(inner) => {
                push_str(&mut v, "LLM error: ");
                let m = inner.message();
                push_str(&mut v, m.as_str());
            },
            RavenClawsError::Config(inner) => {
                push_str(&mut v, "Configuration error: ");
                let m = inner.message();
                push_str(&mut v, m.as_str());
            },
            RavenClawsError::RavenFabric(m) => {
                push_str(&mut v, "RavenFabric error: ");
                push_str(&mut v, m.as_str());
            },
            RavenClawsError::Network(m) => {
                push_str(&mut v, "Network error: ");
                push_str(&mut v, m.as_str());
            },
            RavenClawsError::IO(m) => {
                push_str(&mut v, "IO error: ");
                push_str(&mut v, m.as_str());
            },
            RavenClawsError::CommandExecution(m) => {
                push_str(&mut v, "Command execution failed: ");
                push_str(&mut v, m.as_str());
            },
            RavenClawsError::SecurityViolation(m) => {
                push_str(&mut v, "Security violation: ");
                push_str(&mut v, m.as_str());
            },
        }
        string_from_chars(&v)
    }
}

impl From<LLMError> for RavenClawsError {
    fn from(e: LLMError) -> (r: Self) {
        RavenClawsError::Llm(e)
    }
}

impl vstd::std_specs::convert::FromSpecImpl<LLMError> for RavenClawsError {
    open spec fn obeys_from_spec() -> bool {
        true
    }

    open spec fn from_spec(e: LLMError) -> Self {
        RavenClawsError::Llm(e)
    }
}

impl From<ConfigError> for RavenClawsError {
    fn from(e: ConfigError) -> (r: Self) {
        RavenClawsError::Config(e)
    }
}

impl vstd::std_specs::convert::FromSpecImpl<ConfigError> for RavenClawsError {
    open spec fn obeys_from_spec() -> bool {
        true
    }

    open spec fn from_spec(e: ConfigError) -> Self {
        RavenClawsError::Config(e)
    }
}

} // verus!
