//! Configuration: provider selection, defaults, environment overrides and validation.
//!
//! Secure by default: credentials come from the environment, TLS is required
//! for remote endpoints unless switched off, and a configuration must name at
//! least one usable LLM provider.

use vstd::prelude::*;
use crate::heartbeat::HeartbeatConfig;
use crate::text::{chars_eq, chars_of, contains, decimal, has_prefix, has_substring, matches_at, push_decimal, push_str, starts_with, str_eq, string_from_chars};

verus! {

// ── Errors ─────────────────────────────────────────────────────────────────

/// Configuration error.
#[derive(Debug)]
pub enum ConfigError {
    /// The configuration could not be loaded.
    LoadError(String),
    /// The configuration was loaded but is not usable.
    ValidationError(String),
    /// A required environment variable is missing.
    MissingEnvVar(String),
}

/// The text shown for a configuration error.
pub open spec fn config_error_text(e: ConfigError) -> Seq<char> {
    match e {
        ConfigError::LoadError(m) => "Failed to load config: "@ + m@,
        ConfigError::ValidationError(m) => "Invalid configuration: "@ + m@,
        ConfigError::MissingEnvVar(m) => "Missing required environment variable: "@ + m@,
    }
}

impl ConfigError {
    /// The human-readable message of this error.
    pub fn message(&self) -> (s: String)
        ensures
            s@ == config_error_text(*self),
    {
        let mut v: Vec<char> = Vec::new();
        match self {
            ConfigError::LoadError(m) => {
                push_str(&mut v, "Failed to load config: ");
                push_str(&mut v, m.as_str());
            },
            ConfigError::ValidationError(m) => {
                push_str(&mut v, "Invalid configuration: ");
                push_str(&mut v, m.as_str());
            },
            ConfigError::MissingEnvVar(m) => {
                push_str(&mut v, "Missing required environment variable: ");
                push_str(&mut v, m.as_str());
            },
        }
        string_from_chars(&v)
    }
}

// ── Provider ───────────────────────────────────────────────────────────────

/// LLM provider type — determines which backend is used.
#[derive(Debug, Clone, Copy, PartialEq, Eq, Structural)]
pub enum LLMProvider {
    LiteLLM,
    OpenRouter,
    Ollama,
    OpenAI,
    Anthropic,
    /// Generic OpenAI-compatible provider (vLLM, llama.cpp, LM Studio, TGI, ...).
    OpenAICompatible,
}

impl Default for LLMProvider {
    fn default() -> (p: Self)
        ensures
            p == LLMProvider::LiteLLM,
    {
        LLMProvider::LiteLLM
    }
}

/// The Unicode lowercase of `s`, as `str::to_lowercase` computes it.
pub uninterp spec fn lowercase(s: Seq<char>) -> Seq<char>;

/// Lowercases `s` with `str::to_lowercase`.
#[verifier::external_body]
pub(crate) fn to_lowercase(s: &str) -> (r: String)
    ensures
        r@ == lowercase(s@),
{
    s.to_lowercase()
}

/// The provider named by an already lowercased name when it comes from the
/// environment (`RAVENCLAWS__LLM__PROVIDER`): unknown names fall back to LiteLLM.
pub open spec fn env_provider_spec(lower: Seq<char>) -> LLMProvider {
    if lower == "openrouter"@ {
        LLMProvider::OpenRouter
    } else if lower == "ollama"@ {
        LLMProvider::Ollama
    } else if lower == "openai"@ {
        LLMProvider::OpenAI
    } else if lower == "anthropic"@ {
        LLMProvider::Anthropic
    } else {
        LLMProvider::LiteLLM
    }
}

/// The provider named by an already lowercased command-line name: like the
/// environment names, plus the two spellings of the OpenAI-compatible provider.
pub open spec fn cli_provider_spec(lower: Seq<char>) -> LLMProvider {
    if lower == "openai-compatible"@ || lower == "openai_compatible"@ {
        LLMProvider::OpenAICompatible
    } else {
        env_provider_spec(lower)
    }
}

/// The provider for a lowercased environment name.
pub fn provider_from_lowercase_env_name(lower: &str) -> (p: LLMProvider)
    ensures
        p == env_provider_spec(lower@),
{
    let l = chars_of(lower);
    if chars_eq(&l, "openrouter") {
        LLMProvider::OpenRouter
    } else if chars_eq(&l, "ollama") {
        LLMProvider::Ollama
    } else if chars_eq(&l, "openai") {
        LLMProvider::OpenAI
    } else if chars_eq(&l, "anthropic") {
        LLMProvider::Anthropic
    } else {
        LLMProvider::LiteLLM
    }
}

/// The provider for a lowercased command-line name.
pub fn provider_from_lowercase_cli_name(lower: &str) -> (p: LLMProvider)
    ensures
        p == cli_provider_spec(lower@),
{
    let l = chars_of(lower);
    if chars_eq(&l, "openai-compatible") || chars_eq(&l, "openai_compatible") {
        LLMProvider::OpenAICompatible
    } else {
        provider_from_lowercase_env_name(lower)
    }
}

/// The provider named by `name` in the environment, compared case-insensitively.
pub fn provider_from_env_name(name: &str) -> (p: LLMProvider)
    ensures
        p == env_provider_spec(lowercase(name@)),
{
    let lower = to_lowercase(name);
    provider_from_lowercase_env_name(lower.as_str())
}

/// The provider named by `name` on the command line, compared case-insensitively.
pub fn provider_from_cli_name(name: &str) -> (p: LLMProvider)
    ensures
        p == cli_provider_spec(lowercase(name@)),
{
    let lower = to_lowercase(name);
    provider_from_lowercase_cli_name(lower.as_str())
}

// ── Defaults ───────────────────────────────────────────────────────────────

/// The default persona of the agent.
pub open spec fn default_system_prompt_text() -> Seq<char> {
    "You are RavenClaws, a lightweight autonomous agent. Be concise, efficient, and secure. Always validate inputs and outputs. When you have completed the task, prefix your final answer with FINAL: so the system knows the task is done."@
}

/// Default number of retries.
pub fn default_retry_max() -> (r: u32)
    ensures
        r == 3,
{
    3
}

/// Default retry base delay in milliseconds.
pub fn default_retry_base_delay() -> (r: u64)
    ensures
        r == 100,
{
    100
}

/// Default retry delay cap in milliseconds.
pub fn default_retry_max_delay() -> (r: u64)
    ensures
        r == 10000,
{
    10000
}

/// The default system prompt.
pub fn default_system_prompt() -> (s: String)
    ensures
        s@ == default_system_prompt_text(),
{
    String::from_str(
        "You are RavenClaws, a lightweight autonomous agent. Be concise, efficient, and secure. Always validate inputs and outputs. When you have completed the task, prefix your final answer with FINAL: so the system knows the task is done.",
    )
}

fn default_model() -> (s: String)
    ensures
        s@ == "gpt-4o-mini"@,
{
    String::from_str("gpt-4o-mini")
}

// ── Sections ───────────────────────────────────────────────────────────────

/// LLM provider configuration.
#[derive(Debug)]
pub struct LLMConfig {
    /// Provider type.
    pub provider: LLMProvider,
    /// Endpoint URL; empty means the provider's fixed endpoint.
    pub endpoint: String,
    /// Default model.
    pub model: String,
    /// API key (prefer the environment).
    pub api_key: Option<String>,
    /// Request timeout in seconds.
    pub timeout_secs: u64,
    /// System prompt / persona of the agent.
    pub system_prompt: String,
    /// Maximum tokens per run.
    pub token_budget: Option<u32>,
    /// Maximum retry attempts.
    pub retry_max: u32,
    /// Retry base delay in ms.
    pub retry_base_delay_ms: u64,
    /// Retry delay cap in ms.
    pub retry_max_delay_ms: u64,
}

fn clone_opt_string(o: &Option<String>) -> (r: Option<String>)
    ensures
        r == *o,
{
    match o {
        Some(s) => Some(s.clone()),
        None => None,
    }
}

impl Clone for LLMConfig {
    fn clone(&self) -> (r: Self)
        ensures
            r == *self,
    {
        LLMConfig {
            provider: self.provider,
            endpoint: self.endpoint.clone(),
            model: self.model.clone(),
            api_key: clone_opt_string(&self.api_key),
            timeout_secs: self.timeout_secs,
            system_prompt: self.system_prompt.clone(),
            token_budget: self.token_budget,
            retry_max: self.retry_max,
            retry_base_delay_ms: self.retry_base_delay_ms,
            retry_max_delay_ms: self.retry_max_delay_ms,
        }
    }
}

/// The default LLM configuration.
pub open spec fn default_llm_config_spec(c: LLMConfig) -> bool {
    &&& c.provider == LLMProvider::LiteLLM
    &&& c.endpoint@ == Seq::<char>::empty()
    &&& c.model@ == "gpt-4o-mini"@
    &&& c.api_key is None
    &&& c.timeout_secs == 30
    &&& c.system_prompt@ == default_system_prompt_text()
    &&& c.token_budget is None
    &&& c.retry_max == 3
    &&& c.retry_base_delay_ms == 100
    &&& c.retry_max_delay_ms == 10000
}

impl Default for LLMConfig {
    fn default() -> (c: Self)
        ensures
            default_llm_config_spec(c),
    {
        LLMConfig {
            provider: LLMProvider::LiteLLM,
            endpoint: String::new(),
            model: default_model(),
            api_key: None,
            timeout_secs: 30,
            system_prompt: default_system_prompt(),
            token_budget: None,
            retry_max: default_retry_max(),
            retry_base_delay_ms: default_retry_base_delay(),
            retry_max_delay_ms: default_retry_max_delay(),
        }
    }
}

/// Web search configuration.
#[derive(Debug)]
pub struct WebSearchConfig {
    /// Search API endpoint (SearXNG or compatible).
    pub endpoint: String,
    /// Search engine to use.
    pub engine: String,
    /// Maximum number of results.
    pub max_results: usize,
    /// Whether to fetch the content of each result.
    pub fetch_content: bool,
}

impl Default for WebSearchConfig {
    fn default() -> (c: Self)
        ensures
            c.endpoint@ == "https://searx.be"@,
            c.engine@ == "duckduckgo"@,
            c.max_results == 5,
            c.fetch_content,
    {
        WebSearchConfig {
            endpoint: String::from_str("https://searx.be"),
            engine: String::from_str("duckduckgo"),
            max_results: 5,
            fetch_content: true,
        }
    }
}

/// Telemetry / OpenTelemetry configuration.
#[derive(Debug)]
pub struct TelemetryConfig {
    /// OTLP gRPC endpoint.
    pub otel_endpoint: Option<String>,
    /// Service name for traces.
    pub otel_service_name: Option<String>,
    /// Disable OpenTelemetry tracing.
    pub otel_disabled: bool,
}

impl Default for TelemetryConfig {
    fn default() -> (c: Self)
        ensures
            c.otel_endpoint is None,
            c.otel_service_name is None,
            !c.otel_disabled,
    {
        TelemetryConfig { otel_endpoint: None, otel_service_name: None, otel_disabled: false }
    }
}

/// RavenFabric mesh client configuration.
#[derive(Debug)]
pub struct RavenFabricConfig {
    /// RavenFabric endpoint.
    pub endpoint: Option<String>,
    /// Agent identifier.
    pub agent_id: Option<String>,
    /// Enable remote command execution.
    pub remote_exec: bool,
    /// Allowed remote hosts.
    pub allowed_hosts: Vec<String>,
}

impl Default for RavenFabricConfig {
    fn default() -> (c: Self)
        ensures
            c.endpoint is None,
            c.agent_id is None,
            c.remote_exec,
            c.allowed_hosts@.len() == 0,
    {
        RavenFabricConfig { endpoint: None, agent_id: None, remote_exec: true, allowed_hosts: Vec::new() }
    }
}

/// Security configuration.
#[derive(Debug, Clone, Copy)]
pub struct SecurityConfig {
    /// Require TLS for all remote connections.
    pub require_tls: bool,
    /// Maximum session lifetime in seconds (0 = unlimited).
    pub token_lifetime_secs: u64,
    /// Enable audit logging.
    pub audit_log: bool,
    /// Scan LLM responses for prompt injection.
    pub prompt_injection_protection: bool,
}

impl Default for SecurityConfig {
    fn default() -> (c: Self)
        ensures
            c.require_tls,
            c.token_lifetime_secs == 3600,
            c.audit_log,
            c.prompt_injection_protection,
    {
        SecurityConfig {
            require_tls: true,
            token_lifetime_secs: 3600,
            audit_log: true,
            prompt_injection_protection: true,
        }
    }
}

/// Runtime configuration.
#[derive(Debug)]
pub struct RuntimeConfig {
    /// Working directory.
    pub workdir: String,
    /// Maximum concurrent agents.
    pub max_agents: usize,
    /// Health check interval in seconds.
    pub health_interval_secs: u64,
    /// HTTP server host.
    pub host: Option<String>,
    /// HTTP server port.
    pub port: u16,
}

impl Default for RuntimeConfig {
    fn default() -> (c: Self)
        ensures
            c.workdir@ == "/workspace"@,
            c.max_agents == 10,
            c.health_interval_secs == 60,
            c.host is None,
            c.port == 8080,
    {
        RuntimeConfig {
            workdir: String::from_str("/workspace"),
            max_agents: 10,
            health_interval_secs: 60,
            host: None,
            port: 8080,
        }
    }
}

impl Clone for WebSearchConfig {
    fn clone(&self) -> (r: Self)
        ensures
            r == *self,
    {
        WebSearchConfig {
            endpoint: self.endpoint.clone(),
            engine: self.engine.clone(),
            max_results: self.max_results,
            fetch_content: self.fetch_content,
        }
    }
}

impl Clone for TelemetryConfig {
    fn clone(&self) -> (r: Self)
        ensures
            r == *self,
    {
        TelemetryConfig {
            otel_endpoint: clone_opt_string(&self.otel_endpoint),
            otel_service_name: clone_opt_string(&self.otel_service_name),
            otel_disabled: self.otel_disabled,
        }
    }
}

/// The two fabric configurations hold the same settings.
pub open spec fn same_fabric(a: RavenFabricConfig, b: RavenFabricConfig) -> bool {
    a.endpoint == b.endpoint && a.agent_id == b.agent_id && a.remote_exec == b.remote_exec
        && a.allowed_hosts@ == b.allowed_hosts@
}

impl Clone for RavenFabricConfig {
    fn clone(&self) -> (r: Self)
        ensures
            same_fabric(r, *self),
    {
        let hosts = self.allowed_hosts.clone();
        proof {
            assert(hosts@ =~= self.allowed_hosts@) by {
                assert forall|i: int| 0 <= i < hosts@.len() implies hosts@[i] == self.allowed_hosts@[i] by {
                    assert(cloned::<String>(self.allowed_hosts[i], hosts[i]));
                }
            }
        }
        RavenFabricConfig {
            endpoint: clone_opt_string(&self.endpoint),
            agent_id: clone_opt_string(&self.agent_id),
            remote_exec: self.remote_exec,
            allowed_hosts: hosts,
        }
    }
}

impl Clone for RuntimeConfig {
    fn clone(&self) -> (r: Self)
        ensures
            r == *self,
    {
        RuntimeConfig {
            workdir: self.workdir.clone(),
            max_agents: self.max_agents,
            health_interval_secs: self.health_interval_secs,
            host: clone_opt_string(&self.host),
            port: self.port,
        }
    }
}

/// Top-level configuration.
#[derive(Debug)]
pub struct Config {
    /// Single-provider LLM configuration.
    pub llm: LLMConfig,
    /// Multiple LLM configurations (multi-model mode).
    pub llms: Vec<LLMConfig>,
    /// RavenFabric configuration.
    pub ravenfabric: RavenFabricConfig,
    /// Security settings.
    pub security: SecurityConfig,
    /// Runtime settings.
    pub runtime: RuntimeConfig,
    /// Telemetry settings.
    pub telemetry: TelemetryConfig,
    /// Web search settings.
    pub web_search: WebSearchConfig,
    /// Heartbeat / autonomous agent settings.
    pub heartbeat: HeartbeatConfig,
}

/// The default configuration.
pub open spec fn default_config_spec(c: Config) -> bool {
    &&& default_llm_config_spec(c.llm)
    &&& c.llms@.len() == 0
    &&& c.ravenfabric.endpoint is None && c.ravenfabric.agent_id is None && c.ravenfabric.remote_exec
        && c.ravenfabric.allowed_hosts@.len() == 0
    &&& c.security.require_tls && c.security.token_lifetime_secs == 3600 && c.security.audit_log
        && c.security.prompt_injection_protection
    &&& c.runtime.workdir@ == "/workspace"@ && c.runtime.max_agents == 10 && c.runtime.health_interval_secs == 60
        && c.runtime.host is None && c.runtime.port == 8080
    &&& c.telemetry.otel_endpoint is None && c.telemetry.otel_service_name is None && !c.telemetry.otel_disabled
    &&& c.web_search.endpoint@ == "https://searx.be"@ && c.web_search.engine@ == "duckduckgo"@
        && c.web_search.max_results == 5 && c.web_search.fetch_content
    &&& c.heartbeat.goal@ == Seq::<char>::empty() && c.heartbeat.tick_interval_secs == 300
        && c.heartbeat.max_iterations_per_tick == 5 && c.heartbeat.workdir@ == "/workspace"@
        && c.heartbeat.max_ticks == 0 && c.heartbeat.enable_tools
}

impl Default for Config {
    fn default() -> (c: Self)
        ensures
            default_config_spec(c),
    {
        Config {
            llm: LLMConfig::default(),
            llms: Vec::new(),
            ravenfabric: RavenFabricConfig::default(),
            security: SecurityConfig::default(),
            runtime: RuntimeConfig::default(),
            telemetry: TelemetryConfig::default(),
            web_search: WebSearchConfig::default(),
            heartbeat: HeartbeatConfig::default(),
        }
    }
}

/// The two configurations hold the same settings.
pub open spec fn same_config(a: Config, b: Config) -> bool {
    &&& a.llm == b.llm
    &&& a.llms@ == b.llms@
    &&& same_fabric(a.ravenfabric, b.ravenfabric)
    &&& a.security == b.security
    &&& a.runtime == b.runtime
    &&& a.telemetry == b.telemetry
    &&& a.web_search == b.web_search
    &&& a.heartbeat == b.heartbeat
}

impl Clone for Config {
    fn clone(&self) -> (r: Self)
        ensures
            same_config(r, *self),
    {
        let llms = self.llms.clone();
        proof {
            assert(llms@ =~= self.llms@) by {
                assert forall|i: int| 0 <= i < llms@.len() implies llms@[i] == self.llms@[i] by {
                    assert(cloned::<LLMConfig>(self.llms[i], llms[i]));
                }
            }
        }
        Config {
            llm: self.llm.clone(),
            llms,
            ravenfabric: self.ravenfabric.clone(),
            security: self.security,
            runtime: self.runtime.clone(),
            telemetry: self.telemetry.clone(),
            web_search: self.web_search.clone(),
            heartbeat: self.heartbeat.clone(),
        }
    }
}

// ── Overrides ──────────────────────────────────────────────────────────────

/// Settings the environment overrides once the configuration is loaded.
#[derive(Debug)]
pub struct EnvOverrides {
    /// `LITELLM_API_KEY`: the key of the single provider.
    pub litellm_api_key: Option<String>,
    /// `RAVENCLAWS__LLM__PROVIDER`: the single provider, by name.
    pub provider: Option<String>,
    /// `RAVENCLAWS__LLM__ENDPOINT`.
    pub endpoint: Option<String>,
    /// `RAVENCLAWS__LLM__MODEL`.
    pub model: Option<String>,
    /// `RAVENCLAWS__LLMS`, when it holds a JSON list of providers.
    pub llms: Option<Vec<LLMConfig>>,
    /// `RAVENFABRIC_ENDPOINT`.
    pub ravenfabric_endpoint: Option<String>,
}

/// `o` replaces `v` when it is set.
pub open spec fn overridden<T>(v: T, o: Option<T>) -> T {
    match o {
        Some(x) => x,
        None => v,
    }
}

/// Settings given on the command line.
#[derive(Debug)]
pub struct CliOverrides {
    /// `--provider`: the single provider, by name.
    pub provider: Option<String>,
    /// `--endpoint`.
    pub endpoint: Option<String>,
    /// `--model`.
    pub model: Option<String>,
    /// `--system-prompt`.
    pub system_prompt: Option<String>,
    /// `--token-budget`.
    pub token_budget: Option<u32>,
    /// `--retry-max` (always given; it has a default).
    pub retry_max: u32,
    /// `--retry-base-delay-ms` (always given; it has a default).
    pub retry_base_delay_ms: u64,
    /// `--otel-endpoint`.
    pub otel_endpoint: Option<String>,
    /// `--otel-service-name`.
    pub otel_service_name: Option<String>,
    /// `--otel-disabled`.
    pub otel_disabled: bool,
}

impl Config {
    /// Applies the environment's overrides: the single provider's key,
    /// provider (case-insensitively, unknown names meaning LiteLLM), endpoint
    /// and model, the list of providers, and the RavenFabric endpoint.
    pub fn apply_env_overrides(&mut self, env: EnvOverrides)
        ensures
            final(self).llm.api_key == match env.litellm_api_key {
                Some(k) => Some(k),
                None => old(self).llm.api_key,
            },
            final(self).llm.provider == match env.provider {
                Some(p) => env_provider_spec(lowercase(p@)),
                None => old(self).llm.provider,
            },
            final(self).llm.endpoint == overridden(old(self).llm.endpoint, env.endpoint),
            final(self).llm.model == overridden(old(self).llm.model, env.model),
            final(self).llm.system_prompt == old(self).llm.system_prompt,
            final(self).llm.timeout_secs == old(self).llm.timeout_secs,
            final(self).llm.token_budget == old(self).llm.token_budget,
            final(self).llm.retry_max == old(self).llm.retry_max,
            final(self).llm.retry_base_delay_ms == old(self).llm.retry_base_delay_ms,
            final(self).llm.retry_max_delay_ms == old(self).llm.retry_max_delay_ms,
            final(self).llms == overridden(old(self).llms, env.llms),
            final(self).ravenfabric.endpoint == match env.ravenfabric_endpoint {
                Some(e) => Some(e),
                None => old(self).ravenfabric.endpoint,
            },
            final(self).ravenfabric.agent_id == old(self).ravenfabric.agent_id,
            final(self).ravenfabric.remote_exec == old(self).ravenfabric.remote_exec,
            final(self).ravenfabric.allowed_hosts == old(self).ravenfabric.allowed_hosts,
            final(self).security == old(self).security,
            final(self).runtime == old(self).runtime,
            final(self).telemetry == old(self).telemetry,
            final(self).web_search == old(self).web_search,
            final(self).heartbeat == old(self).heartbeat,
    {
        match env.litellm_api_key {
            Some(k) => self.llm.api_key = Some(k),
            None => {},
        }
        match env.provider {
            Some(p) => self.llm.provider = provider_from_env_name(p.as_str()),
            None => {},
        }
        match env.endpoint {
            Some(e) => self.llm.endpoint = e,
            None => {},
        }
        match env.model {
            Some(m) => self.llm.model = m,
            None => {},
        }
        match env.llms {
            Some(l) => self.llms = l,
            None => {},
        }
        match env.ravenfabric_endpoint {
            Some(e) => self.ravenfabric.endpoint = Some(e),
            None => {},
        }
    }

    /// Applies the command line's overrides: telemetry settings, the single
    /// provider (case-insensitively; the OpenAI-compatible spellings too),
    /// endpoint, model and system prompt, the token budget, and the retry
    /// settings, which are always taken from the command line.
    pub fn apply_cli_overrides(&mut self, cli: CliOverrides)
        ensures
            final(self).telemetry.otel_endpoint == match cli.otel_endpoint {
                Some(e) => Some(e),
                None => old(self).telemetry.otel_endpoint,
            },
            final(self).telemetry.otel_service_name == match cli.otel_service_name {
                Some(n) => Some(n),
                None => old(self).telemetry.otel_service_name,
            },
            final(self).telemetry.otel_disabled == (old(self).telemetry.otel_disabled || cli.otel_disabled),
            final(self).llm.provider == match cli.provider {
                Some(p) => cli_provider_spec(lowercase(p@)),
                None => old(self).llm.provider,
            },
            final(self).llm.endpoint == overridden(old(self).llm.endpoint, cli.endpoint),
            final(self).llm.model == overridden(old(self).llm.model, cli.model),
            final(self).llm.system_prompt == overridden(old(self).llm.system_prompt, cli.system_prompt),
            final(self).llm.token_budget == match cli.token_budget {
                Some(b) => Some(b),
                None => old(self).llm.token_budget,
            },
            final(self).llm.retry_max == cli.retry_max,
            final(self).llm.retry_base_delay_ms == cli.retry_base_delay_ms,
            final(self).llm.api_key == old(self).llm.api_key,
            final(self).llm.timeout_secs == old(self).llm.timeout_secs,
            final(self).llm.retry_max_delay_ms == old(self).llm.retry_max_delay_ms,
            final(self).llms == old(self).llms,
            final(self).ravenfabric == old(self).ravenfabric,
            final(self).security == old(self).security,
            final(self).runtime == old(self).runtime,
            final(self).web_search == old(self).web_search,
            final(self).heartbeat == old(self).heartbeat,
    {
        match cli.otel_endpoint {
            Some(e) => self.telemetry.otel_endpoint = Some(e),
            None => {},
        }
        match cli.otel_service_name {
            Some(n) => self.telemetry.otel_service_name = Some(n),
            None => {},
        }
        if cli.otel_disabled {
            self.telemetry.otel_disabled = true;
        }
        match cli.provider {
            Some(p) => self.llm.provider = provider_from_cli_name(p.as_str()),
            None => {},
        }
        match cli.endpoint {
            Some(e) => self.llm.endpoint = e,
            None => {},
        }
        match cli.model {
            Some(m) => self.llm.model = m,
            None => {},
        }
        match cli.system_prompt {
            Some(sp) => self.llm.system_prompt = sp,
            None => {},
        }
        match cli.token_budget {
            Some(b) => self.llm.token_budget = Some(b),
            None => {},
        }
        self.llm.retry_max = cli.retry_max;
        self.llm.retry_base_delay_ms = cli.retry_base_delay_ms;
    }
}

/// How the agent runs.
#[derive(Debug, Clone, Copy, PartialEq, Eq, Structural)]
pub enum RunMode {
    /// One agent.
    Single,
    /// Several agents in parallel.
    Swarm,
    /// A supervisor coordinating sub-agents.
    Supervisor,
    /// The swarm orchestrator.
    Orchestrate,
}

/// The run mode named on the command line; other names are refused with
/// `Unknown mode: <name>. Use: single, swarm, supervisor, or orchestrate`.
pub fn run_mode(name: &str) -> (r: Result<RunMode, String>)
    ensures
        name@ == "single"@ ==> r == Ok::<RunMode, String>(RunMode::Single),
        name@ == "swarm"@ ==> r == Ok::<RunMode, String>(RunMode::Swarm),
        name@ == "supervisor"@ ==> r == Ok::<RunMode, String>(RunMode::Supervisor),
        name@ == "orchestrate"@ ==> r == Ok::<RunMode, String>(RunMode::Orchestrate),
        name@ != "single"@ && name@ != "swarm"@ && name@ != "supervisor"@ && name@ != "orchestrate"@ ==> (r matches Err(
            m,
        ) && m@ == "Unknown mode: "@ + name@ + ". Use: single, swarm, supervisor, or orchestrate"@),
{
    proof {
        reveal_strlit("single");
        reveal_strlit("swarm");
        reveal_strlit("supervisor");
        reveal_strlit("orchestrate");
        assert("swarm"@.len() == 5 && "single"@.len() == 6 && "supervisor"@.len() == 10 && "orchestrate"@.len() == 11);
        assert("swarm"@ != "single"@);
        assert("supervisor"@ != "single"@ && "supervisor"@ != "swarm"@);
        assert("orchestrate"@ != "single"@ && "orchestrate"@ != "swarm"@ && "orchestrate"@ != "supervisor"@);
    }
    if str_eq(name, "single") {
        Ok(RunMode::Single)
    } else if str_eq(name, "swarm") {
        Ok(RunMode::Swarm)
    } else if str_eq(name, "supervisor") {
        Ok(RunMode::Supervisor)
    } else if str_eq(name, "orchestrate") {
        Ok(RunMode::Orchestrate)
    } else {
        let mut v: Vec<char> = Vec::new();
        push_str(&mut v, "Unknown mode: ");
        push_str(&mut v, name);
        push_str(&mut v, ". Use: single, swarm, supervisor, or orchestrate");
        Err(string_from_chars(&v))
    }
}

/// The log filter: debug output for `--verbose`, info otherwise.
pub fn log_filter(verbose: bool) -> (f: &'static str)
    ensures
        f@ == (if verbose { "ravenclaws=debug"@ } else { "ravenclaws=info"@ }),
{
    if verbose { "ravenclaws=debug" } else { "ravenclaws=info" }
}

// ── Validation ─────────────────────────────────────────────────────────────

/// Whether the provider has a fixed endpoint, so that an empty one is allowed.
pub open spec fn has_fixed_endpoint(p: LLMProvider) -> bool {
    p == LLMProvider::OpenAI || p == LLMProvider::OpenRouter || p == LLMProvider::Anthropic
}

/// Whether `endpoint` may be used without TLS: it is HTTPS or names the local host.
pub open spec fn endpoint_tls_ok(endpoint: Seq<char>) -> bool {
    ||| has_prefix(endpoint, "https://"@)
    ||| has_substring(endpoint, "localhost"@)
    ||| has_substring(endpoint, "127.0.0.1"@)
    ||| has_substring(endpoint, "0.0.0.0"@)
}

/// The problem with one LLM configuration under the given security settings, if any.
pub open spec fn llm_problem(security: SecurityConfig, llm: LLMConfig) -> Option<Seq<char>> {
    if llm.endpoint@.len() == 0 && !has_fixed_endpoint(llm.provider) {
        Some("LLM endpoint is required for this provider"@)
    } else if security.require_tls && llm.endpoint@.len() != 0 && !endpoint_tls_ok(llm.endpoint@) {
        Some("TLS required but endpoint is not HTTPS"@)
    } else {
        None
    }
}

/// Index of the first LLM configuration in `llms` that has a problem, if any.
pub open spec fn first_bad_llm(security: SecurityConfig, llms: Seq<LLMConfig>) -> Option<int>
    decreases llms.len(),
{
    if llms.len() == 0 {
        None
    } else {
        match first_bad_llm(security, llms.drop_last()) {
            Some(i) => Some(i),
            None => if llm_problem(security, llms.last()) is Some {
                Some(llms.len() - 1)
            } else {
                None
            },
        }
    }
}

/// The message for a problem in the multi-provider entry at `index`.
pub open spec fn indexed_problem(index: int, problem: Seq<char>) -> Seq<char> {
    "LLM["@ + decimal(index as nat) + "]: Invalid configuration: "@ + problem
}

/// What validating the configuration yields: `None` when it is usable, else
/// the text of the `ValidationError`.
pub open spec fn config_problem(c: Config) -> Option<Seq<char>> {
    if c.llm.endpoint@.len() != 0 && llm_problem(c.security, c.llm) is Some {
        llm_problem(c.security, c.llm)
    } else if first_bad_llm(c.security, c.llms@) is Some {
        let i = first_bad_llm(c.security, c.llms@)->0;
        Some(indexed_problem(i, llm_problem(c.security, c.llms@[i])->0))
    } else if c.llm.endpoint@.len() == 0 && c.llms@.len() == 0 {
        Some("At least one LLM provider must be configured (llm or llms)"@)
    } else {
        None
    }
}

proof fn lemma_first_bad_prefix(security: SecurityConfig, llms: Seq<LLMConfig>, i: int)
    requires
        0 <= i <= llms.len(),
        forall|k: int| 0 <= k < i ==> llm_problem(security, #[trigger] llms[k]) is None,
    ensures
        first_bad_llm(security, llms.take(i)) is None,
    decreases i,
{
    if i > 0 {
        assert(llms.take(i).drop_last() =~= llms.take(i - 1));
        lemma_first_bad_prefix(security, llms, i - 1);
    }
}

/// Law: OpenAI, OpenRouter and Anthropic have fixed endpoints, so an LLM
/// configuration of one of them with an empty endpoint has no problem, under
/// any security settings; LiteLLM, Ollama and generic OpenAI-compatible
/// configurations need an endpoint.
pub proof fn lemma_empty_endpoint_needs_fixed_provider(security: SecurityConfig, llm: LLMConfig)
    requires
        llm.endpoint@.len() == 0,
    ensures
        llm.provider == LLMProvider::OpenAI || llm.provider == LLMProvider::OpenRouter || llm.provider
            == LLMProvider::Anthropic ==> llm_problem(security, llm) is None,
        llm.provider == LLMProvider::LiteLLM || llm.provider == LLMProvider::Ollama || llm.provider
            == LLMProvider::OpenAICompatible ==> llm_problem(security, llm) == Some(
            "LLM endpoint is required for this provider"@,
        ),
{
}

/// Law: a configuration whose providers are all listed in `llms`, each an
/// OpenAI, OpenRouter or Anthropic entry with an empty endpoint, is valid.
pub proof fn lemma_fixed_endpoint_entries_validate(c: Config)
    requires
        c.llm.endpoint@.len() == 0,
        c.llms@.len() > 0,
        forall|k: int|
            0 <= k < c.llms@.len() ==> (#[trigger] c.llms@[k]).endpoint@.len() == 0 && (c.llms@[k].provider
                == LLMProvider::OpenAI || c.llms@[k].provider == LLMProvider::OpenRouter || c.llms@[k].provider
                == LLMProvider::Anthropic),
    ensures
        config_problem(c) is None,
{
    assert forall|k: int| 0 <= k < c.llms@.len() implies llm_problem(c.security, #[trigger] c.llms@[k]) is None by {
        lemma_empty_endpoint_needs_fixed_provider(c.security, c.llms@[k]);
    }
    lemma_first_bad_prefix(c.security, c.llms@, c.llms@.len() as int);
    assert(c.llms@.take(c.llms@.len() as int) =~= c.llms@);
}

proof fn lemma_first_bad_extends(security: SecurityConfig, llms: Seq<LLMConfig>, i: int)
    requires
        0 <= i < llms.len(),
        first_bad_llm(security, llms.take(i)) is None,
        llm_problem(security, llms[i]) is Some,
    ensures
        first_bad_llm(security, llms) == Some(i),
    decreases llms.len() - i,
{
    if i + 1 == llms.len() {
        assert(llms.drop_last() =~= llms.take(i));
    } else {
        assert(llms.drop_last().take(i) =~= llms.take(i));
        lemma_first_bad_extends(security, llms.drop_last(), i);
    }
}

fn endpoint_is_tls_ok(endpoint: &str) -> (b: bool)
    ensures
        b == endpoint_tls_ok(endpoint@),
{
    let e = chars_of(endpoint);
    let https = chars_of("https://");
    let local = chars_of("localhost");
    let lo = chars_of("127.0.0.1");
    let any = chars_of("0.0.0.0");
    starts_with(&e, &https) || contains(&e, &local) || contains(&e, &lo) || contains(&e, &any)
}

impl Config {
    /// Checks one LLM configuration against the security settings.
    pub fn validate_llm_config(&self, llm: &LLMConfig) -> (r: Result<(), ConfigError>)
        ensures
            match llm_problem(self.security, *llm) {
                None => r is Ok,
                Some(m) => r matches Err(ConfigError::ValidationError(s)) && s@ == m,
            },
    {
        let empty = llm.endpoint.as_str().is_empty();
        if empty && llm.provider != LLMProvider::OpenAI && llm.provider != LLMProvider::OpenRouter
            && llm.provider != LLMProvider::Anthropic {
            return Err(
                ConfigError::ValidationError(
                    String::from_str("LLM endpoint is required for this provider"),
                ),
            );
        }
        if self.security.require_tls && !empty && !endpoint_is_tls_ok(llm.endpoint.as_str()) {
            return Err(
                ConfigError::ValidationError(
                    String::from_str("TLS required but endpoint is not HTTPS"),
                ),
            );
        }
        Ok(())
    }

    /// Validates the configuration: the single-provider section when it has an
    /// endpoint, then every multi-provider entry in order, then that at least one
    /// provider is configured.
    pub fn validate(&self) -> (r: Result<(), ConfigError>)
        ensures
            match config_problem(*self) {
                None => r is Ok,
                Some(m) => r matches Err(ConfigError::ValidationError(s)) && s@ == m,
            },
    {
        if !self.llm.endpoint.as_str().is_empty() {
            let r = self.validate_llm_config(&self.llm);
            if r.is_err() {
                return r;
            }
        }
        let mut i: usize = 0;
        while i < self.llms.len()
            invariant
                i <= self.llms@.len(),
                self.llm.endpoint@.len() != 0 ==> llm_problem(self.security, self.llm) is None,
                forall|k: int| 0 <= k < i ==> llm_problem(self.security, #[trigger] self.llms@[k]) is None,
            decreases self.llms@.len() - i,
        {
            let r = self.validate_llm_config(&self.llms[i]);
            match r {
                Err(ConfigError::ValidationError(m)) => {
                    proof {
                        lemma_first_bad_prefix(self.security, self.llms@, i as int);
                        lemma_first_bad_extends(self.security, self.llms@, i as int);
                    }
                    let mut v: Vec<char> = Vec::new();
                    push_str(&mut v, "LLM[");
                    push_decimal(&mut v, i as u64);
                    push_str(&mut v, "]: Invalid configuration: ");
                    push_str(&mut v, m.as_str());
                    return Err(ConfigError::ValidationError(string_from_chars(&v)));
                },
                _ => {},
            }
            i = i + 1;
        }
        proof {
            lemma_first_bad_prefix(self.security, self.llms@, self.llms@.len() as int);
            assert(self.llms@.take(self.llms@.len() as int) =~= self.llms@);
        }
        if self.llm.endpoint.as_str().is_empty() && self.llms.len() == 0 {
            return Err(
                ConfigError::ValidationError(
                    String::from_str("At least one LLM provider must be configured (llm or llms)"),
                ),
            );
        }
        Ok(())
    }
}

} // verus!
