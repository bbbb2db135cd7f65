//! Declarative agent blueprints: a reusable description of an agent (persona,
//! model, tools, security, limits) that is validated and materialised into a
//! runnable [`Config`].
//!
//! Blueprints are read from TOML or JSON by the application.

use vstd::prelude::*;
use crate::config::{default_config_spec, same_config, same_fabric, Config, LLMConfig, SecurityConfig};
use crate::text::{chars_of, push_str, string_from_chars, trim_chars, trim_seq};

verus! {

/// The persona of a blueprint.
#[derive(Debug, Clone)]
pub struct BlueprintPersona {
    /// The system prompt.
    pub system_prompt: String,
}

impl Default for BlueprintPersona {
    fn default() -> (p: Self)
        ensures
            p.system_prompt@ == Seq::<char>::empty(),
    {
        BlueprintPersona { system_prompt: String::new() }
    }
}

/// A declarative description of an agent.
#[derive(Debug)]
pub struct AgentBlueprint {
    /// Human-readable name.
    pub name: String,
    /// One-line description.
    pub description: Option<String>,
    /// Version of the blueprint.
    pub version: Option<String>,
    /// The persona.
    pub persona: BlueprintPersona,
    /// The model; when absent the base configuration's model is kept.
    pub llm: Option<LLMConfig>,
    /// Tool names the agent may call; empty means the default tools.
    pub tools: Vec<String>,
    /// Whether sensitive tool calls need human approval.
    pub require_approval: bool,
    /// Maximum agent-loop iterations.
    pub max_iterations: usize,
    /// Security settings; when absent the base configuration's are kept.
    pub security: Option<SecurityConfig>,
}

impl Default for AgentBlueprint {
    fn default() -> (b: Self)
        ensures
            b.name@ == "assistant"@,
            b.description is None,
            b.version is None,
            b.persona.system_prompt@ == Seq::<char>::empty(),
            b.llm is None,
            b.tools@.len() == 0,
            !b.require_approval,
            b.max_iterations == 10,
            b.security is None,
    {
        AgentBlueprint {
            name: String::from_str("assistant"),
            description: None,
            version: None,
            persona: BlueprintPersona::default(),
            llm: None,
            tools: Vec::new(),
            require_approval: false,
            max_iterations: 10,
            security: None,
        }
    }
}

/// What can be wrong with a blueprint.
#[derive(Debug)]
pub enum BlueprintError {
    /// It could not be parsed.
    Parse(String),
    /// It is inconsistent.
    Validation(String),
}

/// The text shown for a blueprint error.
pub open spec fn blueprint_error_text(e: BlueprintError) -> Seq<char> {
    match e {
        BlueprintError::Parse(m) => "Failed to parse blueprint: "@ + m@,
        BlueprintError::Validation(m) => "Invalid blueprint: "@ + m@,
    }
}

impl BlueprintError {
    /// The human-readable message of this error.
    pub fn message(&self) -> (s: String)
        ensures
            s@ == blueprint_error_text(*self),
    {
        let mut v: Vec<char> = Vec::new();
        match self {
            BlueprintError::Parse(m) => {
                push_str(&mut v, "Failed to parse blueprint: ");
                push_str(&mut v, m.as_str());
            },
            BlueprintError::Validation(m) => {
                push_str(&mut v, "Invalid blueprint: ");
                push_str(&mut v, m.as_str());
            },
        }
        string_from_chars(&v)
    }
}

/// The LLM settings a blueprint yields over base settings `base_llm`: its own
/// model when it has one, else the base one, with the persona as system prompt.
pub open spec fn blueprint_llm(b: AgentBlueprint, base_llm: LLMConfig) -> LLMConfig {
    let l = match b.llm {
        Some(l) => l,
        None => base_llm,
    };
    LLMConfig { system_prompt: b.persona.system_prompt, ..l }
}

/// `c` is `base` with the blueprint's model, persona and security applied.
pub open spec fn applied(c: Config, b: AgentBlueprint, base: Config) -> bool {
    &&& c.llm == blueprint_llm(b, base.llm)
    &&& c.security == match b.security {
        Some(s) => s,
        None => base.security,
    }
    &&& c.llms@ == base.llms@
    &&& same_fabric(c.ravenfabric, base.ravenfabric)
    &&& c.runtime == base.runtime
    &&& c.telemetry == base.telemetry
    &&& c.web_search == base.web_search
    &&& c.heartbeat == base.heartbeat
}

impl AgentBlueprint {
    /// Checks the blueprint: its name must not be blank and it must allow at
    /// least one iteration.
    pub fn validate(&self) -> (r: Result<(), BlueprintError>)
        ensures
            trim_seq(self.name@).len() == 0 ==> (r matches Err(BlueprintError::Validation(m)) && m@
                == "blueprint name must not be empty"@),
            trim_seq(self.name@).len() > 0 && self.max_iterations == 0 ==> (r matches Err(
                BlueprintError::Validation(m),
            ) && m@ == "max_iterations must be >= 1"@),
            trim_seq(self.name@).len() > 0 && self.max_iterations > 0 ==> r is Ok,
    {
        let name = chars_of(self.name.as_str());
        let t = trim_chars(&name);
        if t.len() == 0 {
            return Err(BlueprintError::Validation(String::from_str("blueprint name must not be empty")));
        }
        if self.max_iterations == 0 {
            return Err(BlueprintError::Validation(String::from_str("max_iterations must be >= 1")));
        }
        Ok(())
    }

    /// The runnable configuration: `base` (or the default configuration) with
    /// the blueprint's model, persona and security applied.
    pub fn to_config(&self, base: Option<&Config>) -> (c: Config)
        ensures
            match base {
                Some(b) => applied(c, *self, *b),
                None => exists|d: Config| default_config_spec(d) && applied(c, *self, d),
            },
    {
        let b = match base {
            Some(b) => b.clone(),
            None => Config::default(),
        };
        let ghost gb = b;
        let llm = match &self.llm {
            Some(l) => l.clone(),
            None => b.llm.clone(),
        };
        let mut cfg = Config { llm, ..b };
        cfg.llm.system_prompt = self.persona.system_prompt.clone();
        match &self.security {
            Some(s) => {
                cfg.security = *s;
            },
            None => {},
        }
        proof {
            assert(applied(cfg, *self, gb));
        }
        cfg
    }

    /// The tools the blueprint exposes; empty means the default tools.
    pub fn enabled_tools(&self) -> (t: &[String])
        ensures
            t@ == self.tools@,
    {
        self.tools.as_slice()
    }
}

} // verus!
