//! LLM provider model: providers, messages, errors, circuit breaking, budgets
//! and the request-shaping decisions shared by every client.
//!
//! The HTTP clients themselves live with the application; this module decides
//! what they send, where, and how a reply status is classified.

use vstd::prelude::*;
use crate::backoff::{backoff_delay_ms, backoff_in_range, capped_delay, fits_backoff, jitter_range, jittered_delay};
use crate::clock::{nanos_since, now, NANOS_PER_SEC};
use crate::config::{lowercase, to_lowercase, LLMProvider};
use crate::error::RavenClawsError;
use std::time::Instant;
use crate::text::{
    chars_of, contains, has_prefix, has_substring, matches_at, push_chars, push_str, slice_range,
    string_from_chars,
};

verus! {

// ── Providers ──────────────────────────────────────────────────────────────

/// Provider type for OpenAI-compatible APIs.
#[derive(Debug, Clone, Copy, PartialEq, Eq, Structural)]
pub enum OpenAICompatibleProvider {
    LiteLLM,
    OpenAI,
    OpenRouter,
    /// Generic OpenAI-compatible endpoint (vLLM, llama.cpp, LM Studio, TGI, Groq, ...).
    Generic,
    /// Azure OpenAI Service — `api-key` header and `api-version` query parameter.
    Azure,
}

/// The endpoint a provider uses when none is configured.
pub open spec fn default_endpoint_spec(p: OpenAICompatibleProvider) -> Seq<char> {
    match p {
        OpenAICompatibleProvider::LiteLLM => "http://localhost:4000"@,
        OpenAICompatibleProvider::OpenAI => "https://api.openai.com"@,
        OpenAICompatibleProvider::OpenRouter => "https://openrouter.ai"@,
        OpenAICompatibleProvider::Generic => "http://localhost:8000"@,
        OpenAICompatibleProvider::Azure => "https://YOUR_RESOURCE.openai.azure.com"@,
    }
}

/// The name a provider reports.
pub open spec fn provider_name_spec(p: OpenAICompatibleProvider) -> Seq<char> {
    match p {
        OpenAICompatibleProvider::LiteLLM => "litellm"@,
        OpenAICompatibleProvider::OpenAI => "openai"@,
        OpenAICompatibleProvider::OpenRouter => "openrouter"@,
        OpenAICompatibleProvider::Generic => "openai-compatible"@,
        OpenAICompatibleProvider::Azure => "azure"@,
    }
}

impl OpenAICompatibleProvider {
    /// Default endpoint for the provider.
    pub fn default_endpoint(&self) -> (r: &'static str)
        ensures
            r@ == default_endpoint_spec(*self),
    {
        match self {
            OpenAICompatibleProvider::LiteLLM => "http://localhost:4000",
            OpenAICompatibleProvider::OpenAI => "https://api.openai.com",
            OpenAICompatibleProvider::OpenRouter => "https://openrouter.ai",
            OpenAICompatibleProvider::Generic => "http://localhost:8000",
            OpenAICompatibleProvider::Azure => "https://YOUR_RESOURCE.openai.azure.com",
        }
    }

    /// Provider name string.
    pub fn name(&self) -> (r: &'static str)
        ensures
            r@ == provider_name_spec(*self),
    {
        match self {
            OpenAICompatibleProvider::LiteLLM => "litellm",
            OpenAICompatibleProvider::OpenAI => "openai",
            OpenAICompatibleProvider::OpenRouter => "openrouter",
            OpenAICompatibleProvider::Generic => "openai-compatible",
            OpenAICompatibleProvider::Azure => "azure",
        }
    }

    /// Whether the provider needs headers beyond bearer authentication.
    pub fn requires_custom_headers(&self) -> (b: bool)
        ensures
            b == (*self == OpenAICompatibleProvider::OpenRouter || *self
                == OpenAICompatibleProvider::Azure),
    {
        match self {
            OpenAICompatibleProvider::OpenRouter | OpenAICompatibleProvider::Azure => true,
            _ => false,
        }
    }
}

/// Which client serves a configured provider.
#[derive(Debug, Clone, Copy, PartialEq, Eq, Structural)]
pub enum ClientKind {
    /// The unified OpenAI-compatible client, with its provider flavour.
    OpenAICompatible(OpenAICompatibleProvider),
    /// The native Ollama client.
    Ollama,
    /// The native Anthropic client.
    Anthropic,
}

/// The client that `create_client` builds for a provider.
pub open spec fn client_kind_spec(p: LLMProvider) -> ClientKind {
    match p {
        LLMProvider::LiteLLM => ClientKind::OpenAICompatible(OpenAICompatibleProvider::LiteLLM),
        LLMProvider::OpenRouter => ClientKind::OpenAICompatible(OpenAICompatibleProvider::OpenRouter),
        LLMProvider::Ollama => ClientKind::Ollama,
        LLMProvider::OpenAI => ClientKind::OpenAICompatible(OpenAICompatibleProvider::OpenAI),
        LLMProvider::Anthropic => ClientKind::Anthropic,
        LLMProvider::OpenAICompatible => ClientKind::OpenAICompatible(OpenAICompatibleProvider::Generic),
    }
}

/// Selects the client for a configured provider.
pub fn client_kind(p: LLMProvider) -> (k: ClientKind)
    ensures
        k == client_kind_spec(p),
{
    match p {
        LLMProvider::LiteLLM => ClientKind::OpenAICompatible(OpenAICompatibleProvider::LiteLLM),
        LLMProvider::OpenRouter => ClientKind::OpenAICompatible(OpenAICompatibleProvider::OpenRouter),
        LLMProvider::Ollama => ClientKind::Ollama,
        LLMProvider::OpenAI => ClientKind::OpenAICompatible(OpenAICompatibleProvider::OpenAI),
        LLMProvider::Anthropic => ClientKind::Anthropic,
        LLMProvider::OpenAICompatible => ClientKind::OpenAICompatible(OpenAICompatibleProvider::Generic),
    }
}

/// The `Debug` name of a provider, as the fallback chain lists it.
pub open spec fn provider_debug_name_spec(p: LLMProvider) -> Seq<char> {
    match p {
        LLMProvider::LiteLLM => "LiteLLM"@,
        LLMProvider::OpenRouter => "OpenRouter"@,
        LLMProvider::Ollama => "Ollama"@,
        LLMProvider::OpenAI => "OpenAI"@,
        LLMProvider::Anthropic => "Anthropic"@,
        LLMProvider::OpenAICompatible => "OpenAICompatible"@,
    }
}

/// The `Debug` name of a provider.
pub fn provider_debug_name(p: LLMProvider) -> (s: String)
    ensures
        s@ == provider_debug_name_spec(p),
{
    match p {
        LLMProvider::LiteLLM => String::from_str("LiteLLM"),
        LLMProvider::OpenRouter => String::from_str("OpenRouter"),
        LLMProvider::Ollama => String::from_str("Ollama"),
        LLMProvider::OpenAI => String::from_str("OpenAI"),
        LLMProvider::Anthropic => String::from_str("Anthropic"),
        LLMProvider::OpenAICompatible => String::from_str("OpenAICompatible"),
    }
}

// ── Errors ─────────────────────────────────────────────────────────────────

/// LLM provider error.
#[derive(Debug)]
pub enum LLMError {
    RequestFailed(String),
    InvalidResponse(String),
    RateLimited,
    AuthFailed,
    ProviderNotSupported(String),
    TokenBudgetExceeded,
    AllProvidersFailed,
    CircuitBreakerOpen(String),
}

/// The text shown for an LLM error.
pub open spec fn llm_error_text(e: LLMError) -> Seq<char> {
    match e {
        LLMError::RequestFailed(m) => "Request failed: "@ + m@,
        LLMError::InvalidResponse(m) => "Invalid response: "@ + m@,
        LLMError::RateLimited => "Rate limit exceeded"@,
        LLMError::AuthFailed => "Authentication failed"@,
        LLMError::ProviderNotSupported(m) => "Provider not supported: "@ + m@,
        LLMError::TokenBudgetExceeded => "Token budget exceeded"@,
        LLMError::AllProvidersFailed => "All providers failed after retries"@,
        LLMError::CircuitBreakerOpen(m) => "Circuit breaker open for provider: "@ + m@,
    }
}

impl LLMError {
    /// The human-readable message of this error.
    pub fn message(&self) -> (s: String)
        ensures
            s@ == llm_error_text(*self),
    {
        let mut v: Vec<char> = Vec::new();
        match self {
            LLMError::RequestFailed(m) => {
                push_str(&mut v, "Request failed: ");
                push_str(&mut v, m.as_str());
            },
            LLMError::InvalidResponse(m) => {
                push_str(&mut v, "Invalid response: ");
                push_str(&mut v, m.as_str());
            },
            LLMError::RateLimited => push_str(&mut v, "Rate limit exceeded"),
            LLMError::AuthFailed => push_str(&mut v, "Authentication failed"),
            LLMError::ProviderNotSupported(m) => {
                push_str(&mut v, "Provider not supported: ");
                push_str(&mut v, m.as_str());
            },
            LLMError::TokenBudgetExceeded => push_str(&mut v, "Token budget exceeded"),
            LLMError::AllProvidersFailed => push_str(&mut v, "All providers failed after retries"),
            LLMError::CircuitBreakerOpen(m) => {
                push_str(&mut v, "Circuit breaker open for provider: ");
                push_str(&mut v, m.as_str());
            },
        }
        string_from_chars(&v)
    }
}

// ── Retries and circuit breaking ───────────────────────────────────────────

/// Retry settings of a client.
#[derive(Debug, Clone)]
pub struct RetryConfig {
    /// Maximum number of retries (default: 3).
    pub max_retries: u32,
    /// Base delay for exponential backoff in ms (default: 100).
    pub base_delay_ms: u64,
    /// Maximum delay in ms (default: 10000).
    pub max_delay_ms: u64,
    /// Jitter, in percent of the capped delay (default: 50).
    pub jitter_percent: u32,
}

impl Default for RetryConfig {
    fn default() -> (c: Self)
        ensures
            c.max_retries == 3,
            c.base_delay_ms == 100,
            c.max_delay_ms == 10000,
            c.jitter_percent == 50,
    {
        RetryConfig { max_retries: 3, base_delay_ms: 100, max_delay_ms: 10000, jitter_percent: 50 }
    }
}

/// What a client does after a failed request.
#[derive(Debug)]
pub enum RequestStep {
    /// Wait `delay_ms` milliseconds ([`RetryConfig::delay_for_attempt`] of
    /// `attempt`; `None` when `base_delay_ms · 2^attempt` does not fit in 64
    /// bits and no delay can be computed), then try again.
    Retry { attempt: u32, delay_ms: Option<u64> },
    /// Give up with this error.
    Fail(LLMError),
}

impl RetryConfig {
    /// The delay in milliseconds before retry `attempt`: `base_delay_ms ·
    /// 2^attempt` capped at `max_delay_ms`, plus a random jitter of up to
    /// `jitter_percent` percent when positive, never below `base_delay_ms`.
    /// Whether `d` is a delay that [`Self::delay_for_attempt`] may give for
    /// `attempt`: the capped backoff plus some jitter within the range.
    pub open spec fn is_backoff_delay(&self, attempt: nat, d: nat) -> bool {
        let capped = capped_delay(self.base_delay_ms as nat, self.max_delay_ms as nat, attempt);
        let range = jitter_range(capped, self.jitter_percent as nat);
        exists|sample: int| -range <= sample <= range && d == #[trigger] jittered_delay(
            self.base_delay_ms as nat,
            capped,
            sample,
        )
    }

    pub fn delay_for_attempt(&self, attempt: u32) -> (d: u64)
        requires
            backoff_in_range(self.base_delay_ms as nat, attempt as nat),
        ensures
            self.is_backoff_delay(attempt as nat, d as nat),
    {
        backoff_delay_ms(self.base_delay_ms, self.max_delay_ms, self.jitter_percent, attempt)
    }

    /// Decides what follows a failed request at `attempt` (0-based): an
    /// authentication failure is never retried; other errors are retried,
    /// after the backoff delay for `attempt`, until `max_retries` retries were
    /// made, then returned.
    pub fn after_failed_request(&self, attempt: u32, error: LLMError) -> (s: RequestStep)
        ensures
            error is AuthFailed ==> s matches RequestStep::Fail(LLMError::AuthFailed),
            !(error is AuthFailed) && attempt < self.max_retries ==> (s matches RequestStep::Retry { attempt: a, delay_ms }
                && a == attempt && (backoff_in_range(self.base_delay_ms as nat, attempt as nat) <==> delay_ms is Some)
                && (delay_ms matches Some(d) ==> self.is_backoff_delay(attempt as nat, d as nat))),
            !(error is AuthFailed) && attempt >= self.max_retries ==> s == RequestStep::Fail(error),
    {
        match error {
            LLMError::AuthFailed => RequestStep::Fail(LLMError::AuthFailed),
            _ => {
                if attempt < self.max_retries {
                    let delay_ms = if attempt < 64 && fits_backoff(self.base_delay_ms, attempt) {
                        Some(self.delay_for_attempt(attempt))
                    } else {
                        None
                    };
                    RequestStep::Retry { attempt, delay_ms }
                } else {
                    RequestStep::Fail(error)
                }
            },
        }
    }
}

/// State of a provider circuit.
#[derive(Debug, Clone, Copy, PartialEq, Eq, Structural)]
#[non_exhaustive]
pub enum CircuitState {
    Closed,
    Open,
    HalfOpen,
}

/// Failures that open a provider circuit.
pub const CIRCUIT_FAILURE_THRESHOLD: u32 = 5;

/// A provider circuit breaker.
#[derive(Debug)]
pub struct CircuitBreaker {
    /// Current state.
    pub state: CircuitState,
    /// Consecutive failures.
    pub failure_count: u32,
    /// When the last failure happened.
    pub last_failure_time: Option<Instant>,
    /// Seconds the circuit stays open before half-opening.
    pub open_duration_secs: u64,
}

/// The circuit breaker `after` is `before` after one more failure.
pub open spec fn circuit_failed(before: CircuitBreaker, after: CircuitBreaker) -> bool {
    &&& after.failure_count == before.failure_count + 1
    &&& after.last_failure_time is Some
    &&& after.state == (if before.failure_count + 1 >= CIRCUIT_FAILURE_THRESHOLD {
        CircuitState::Open
    } else {
        before.state
    })
    &&& after.open_duration_secs == before.open_duration_secs
}

/// Law: starting from a breaker with no failures, a run of consecutive
/// failures counts each one, leaves the circuit as it was for the first four,
/// and opens it from the fifth on.
pub proof fn lemma_consecutive_failures_open_circuit(cbs: Seq<CircuitBreaker>)
    requires
        cbs.len() >= 1,
        cbs[0].failure_count == 0,
        forall|i: int| 0 <= i < cbs.len() - 1 ==> circuit_failed(#[trigger] cbs[i], cbs[i + 1]),
    ensures
        forall|i: int| 0 <= i < cbs.len() ==> #[trigger] cbs[i].failure_count == i,
        forall|i: int|
            0 <= i < cbs.len() ==> #[trigger] cbs[i].state == (if i >= CIRCUIT_FAILURE_THRESHOLD {
                CircuitState::Open
            } else {
                cbs[0].state
            }),
    decreases cbs.len(),
{
    if cbs.len() > 1 {
        let prefix = cbs.drop_last();
        assert forall|i: int| 0 <= i < prefix.len() - 1 implies circuit_failed(#[trigger] prefix[i], prefix[i + 1]) by {
            assert(circuit_failed(cbs[i], cbs[i + 1]));
        }
        lemma_consecutive_failures_open_circuit(prefix);
        let n = cbs.len() - 1;
        assert(circuit_failed(cbs[n - 1], cbs[n]));
        assert(prefix[n - 1] == cbs[n - 1]);
        assert forall|i: int| 0 <= i < cbs.len() implies #[trigger] cbs[i].failure_count == i by {
            if i < n {
                assert(prefix[i] == cbs[i]);
            }
        }
        assert forall|i: int|
            0 <= i < cbs.len() implies #[trigger] cbs[i].state == (if i >= CIRCUIT_FAILURE_THRESHOLD {
                CircuitState::Open
            } else {
                cbs[0].state
            }) by {
            if i < n {
                assert(prefix[i] == cbs[i]);
            }
        }
    }
}

impl CircuitBreaker {
    /// A closed circuit with no failures.
    pub fn new(open_duration_secs: u64) -> (cb: Self)
        ensures
            cb.state == CircuitState::Closed,
            cb.failure_count == 0,
            cb.last_failure_time is None,
            cb.open_duration_secs == open_duration_secs,
    {
        CircuitBreaker { state: CircuitState::Closed, failure_count: 0, last_failure_time: None, open_duration_secs }
    }

    /// Records a success: the count is reset and the circuit closes.
    pub fn record_success(&mut self)
        ensures
            *final(self) == (CircuitBreaker { state: CircuitState::Closed, failure_count: 0, ..*old(self) }),
    {
        self.failure_count = 0;
        self.state = CircuitState::Closed;
    }

    /// Records a failure; the fifth consecutive failure opens the circuit.
    pub fn record_failure(&mut self)
        requires
            old(self).failure_count < u32::MAX,
        ensures
            circuit_failed(*old(self), *final(self)),
    {
        self.failure_count = self.failure_count + 1;
        self.last_failure_time = Some(now());
        if self.failure_count >= CIRCUIT_FAILURE_THRESHOLD {
            self.state = CircuitState::Open;
        }
    }

    /// Whether a request may go through, given the nanoseconds elapsed since
    /// the last failure (`None` when no failure time is known). An open
    /// circuit half-opens once `open_duration_secs` have passed.
    pub fn can_execute_after(&mut self, elapsed_nanos: Option<u128>) -> (r: bool)
        ensures
            old(self).state != CircuitState::Open ==> r && *final(self) == *old(self),
            old(self).state == CircuitState::Open ==> if elapsed_nanos matches Some(e) && e
                >= old(self).open_duration_secs * NANOS_PER_SEC {
                r && *final(self) == (CircuitBreaker { state: CircuitState::HalfOpen, ..*old(self) })
            } else {
                !r && *final(self) == *old(self)
            },
    {
        match self.state {
            CircuitState::Closed => true,
            CircuitState::HalfOpen => true,
            CircuitState::Open => {
                match elapsed_nanos {
                    Some(e) => {
                        if e >= (self.open_duration_secs as u128) * NANOS_PER_SEC {
                            self.state = CircuitState::HalfOpen;
                            true
                        } else {
                            false
                        }
                    },
                    None => false,
                }
            },
        }
    }

    /// Whether a request may go through now.
    pub fn can_execute(&mut self) -> (r: bool)
        ensures
            old(self).state != CircuitState::Open ==> r && *final(self) == *old(self),
            old(self).state == CircuitState::Open && old(self).last_failure_time is None ==> !r
                && *final(self) == *old(self),
            old(self).state == CircuitState::Open && old(self).last_failure_time is Some
                && old(self).open_duration_secs == 0 ==> r && *final(self) == (CircuitBreaker {
                state: CircuitState::HalfOpen,
                ..*old(self)
            }),
            old(self).state == CircuitState::Open ==> (r && *final(self) == (CircuitBreaker {
                state: CircuitState::HalfOpen,
                ..*old(self)
            })) || (!r && *final(self) == *old(self)),
    {
        let elapsed = if self.state == CircuitState::Open {
            match &self.last_failure_time {
                Some(t) => Some(nanos_since(t)),
                None => None,
            }
        } else {
            None
        };
        self.can_execute_after(elapsed)
    }
}

/// How a reply's HTTP status is treated.
#[derive(Debug, Clone, Copy, PartialEq, Eq, Structural)]
pub enum StatusClass {
    /// 2xx: the body is parsed as a chat response.
    Success,
    /// 401: authentication failed.
    Unauthorized,
    /// 429: rate limited.
    TooManyRequests,
    /// Anything else: the request failed.
    Failed,
}

/// The class of an HTTP status code.
pub open spec fn status_class_spec(code: u16) -> StatusClass {
    if 200 <= code && code <= 299 {
        StatusClass::Success
    } else if code == 401 {
        StatusClass::Unauthorized
    } else if code == 429 {
        StatusClass::TooManyRequests
    } else {
        StatusClass::Failed
    }
}

/// Classifies an HTTP status code.
pub fn classify_status(code: u16) -> (c: StatusClass)
    ensures
        c == status_class_spec(code),
{
    if 200 <= code && code <= 299 {
        StatusClass::Success
    } else if code == 401 {
        StatusClass::Unauthorized
    } else if code == 429 {
        StatusClass::TooManyRequests
    } else {
        StatusClass::Failed
    }
}

// ── Endpoints and headers ──────────────────────────────────────────────────

/// `s` with every trailing `'/'` removed (what `trim_end_matches('/')` returns).
pub open spec fn trim_trailing_slashes(s: Seq<char>) -> Seq<char>
    decreases s.len(),
{
    if s.len() > 0 && s.last() == '/' {
        trim_trailing_slashes(s.drop_last())
    } else {
        s
    }
}

/// `s` without its trailing slashes.
pub fn strip_trailing_slashes(s: &[char]) -> (t: Vec<char>)
    ensures
        t@ == trim_trailing_slashes(s@),
{
    let mut j: usize = s.len();
    assert(s@.subrange(0, j as int) =~= s@);
    while j > 0 && s[j - 1] == '/'
        invariant
            j <= s@.len(),
            trim_trailing_slashes(s@) == trim_trailing_slashes(s@.subrange(0, j as int)),
        decreases j,
    {
        proof {
            assert(s@.subrange(0, j as int).drop_last() =~= s@.subrange(0, j - 1));
        }
        j = j - 1;
    }
    let t = slice_range(s, 0, j);
    t
}

/// The chat-completions URL of an OpenAI-compatible provider.
pub open spec fn chat_endpoint_spec(p: OpenAICompatibleProvider, configured: Seq<char>) -> Seq<char> {
    let base = if configured.len() == 0 { default_endpoint_spec(p) } else { configured };
    let url = trim_trailing_slashes(base) + "/v1/chat/completions"@;
    if p == OpenAICompatibleProvider::Azure && !has_substring(url, "api-version"@) {
        url + "?api-version=2024-02-15-preview"@
    } else {
        url
    }
}

/// Builds the chat-completions URL from the configured endpoint (or the provider default).
pub fn chat_endpoint(p: OpenAICompatibleProvider, configured: &str) -> (u: String)
    ensures
        u@ == chat_endpoint_spec(p, configured@),
{
    let base = if configured.is_empty() {
        chars_of(p.default_endpoint())
    } else {
        chars_of(configured)
    };
    let mut url = strip_trailing_slashes(&base);
    push_str(&mut url, "/v1/chat/completions");
    if p == OpenAICompatibleProvider::Azure {
        let key = chars_of("api-version");
        if !contains(&url, &key) {
            push_str(&mut url, "?api-version=2024-02-15-preview");
        }
    }
    string_from_chars(&url)
}

/// Where a request's credentials go.
#[derive(Debug, Clone, PartialEq, Eq)]
pub enum AuthHeader {
    /// No key is configured.
    NoKey,
    /// `api-key: <key>` (Azure).
    ApiKey(String),
    /// `Authorization: Bearer <key>`.
    Bearer(String),
}

/// The authentication header for a provider and optional key.
pub fn auth_header(p: OpenAICompatibleProvider, key: &Option<String>) -> (h: AuthHeader)
    ensures
        match *key {
            None => h == AuthHeader::NoKey,
            Some(k) => if p == OpenAICompatibleProvider::Azure {
                h matches AuthHeader::ApiKey(v) && v@ == k@
            } else {
                h matches AuthHeader::Bearer(v) && v@ == "Bearer "@ + k@
            },
        },
{
    match key {
        None => AuthHeader::NoKey,
        Some(k) => {
            if p == OpenAICompatibleProvider::Azure {
                AuthHeader::ApiKey(k.clone())
            } else {
                let mut v: Vec<char> = Vec::new();
                push_str(&mut v, "Bearer ");
                push_str(&mut v, k.as_str());
                AuthHeader::Bearer(string_from_chars(&v))
            }
        },
    }
}

/// The MIME type of an image by its (lowercased) file extension.
pub open spec fn image_mime_spec(ext: Seq<char>) -> Option<Seq<char>> {
    if ext == "png"@ {
        Some("image/png"@)
    } else if ext == "jpg"@ || ext == "jpeg"@ {
        Some("image/jpeg"@)
    } else if ext == "gif"@ {
        Some("image/gif"@)
    } else if ext == "webp"@ {
        Some("image/webp"@)
    } else {
        None
    }
}

fn eq_lit(a: &[char], b: &str) -> (r: bool)
    ensures
        r == (a@ == b@),
{
    let bc = chars_of(b);
    if a.len() != bc.len() {
        return false;
    }
    let r = matches_at(a, &bc, 0);
    assert(a@.subrange(0, bc@.len() as int) =~= a@);
    r
}

/// The MIME type for a lowercased image extension; `None` when unsupported.
pub fn image_mime(ext_lower: &str) -> (m: Option<&'static str>)
    ensures
        match image_mime_spec(ext_lower@) {
            None => m is None,
            Some(t) => m matches Some(s) && s@ == t,
        },
{
    let e = chars_of(ext_lower);
    if eq_lit(&e, "png") {
        Some("image/png")
    } else if eq_lit(&e, "jpg") || eq_lit(&e, "jpeg") {
        Some("image/jpeg")
    } else if eq_lit(&e, "gif") {
        Some("image/gif")
    } else if eq_lit(&e, "webp") {
        Some("image/webp")
    } else {
        None
    }
}

/// The data URI for an image: `data:{mime};base64,{data}`.
pub fn image_data_uri(mime: &str, base64_data: &str) -> (u: String)
    ensures
        u@ == "data:"@ + mime@ + ";base64,"@ + base64_data@,
{
    let mut v: Vec<char> = Vec::new();
    push_str(&mut v, "data:");
    push_str(&mut v, mime);
    push_str(&mut v, ";base64,");
    push_str(&mut v, base64_data);
    string_from_chars(&v)
}

/// The standard, padded base64 text of `data`.
pub uninterp spec fn base64_standard(data: Seq<u8>) -> Seq<char>;

/// Encodes bytes with `base64::Engine::encode` on the `STANDARD` engine;
/// the text is named [`base64_standard`] of the bytes.
#[verifier::external_body]
fn base64_encode(data: &[u8]) -> (s: String)
    ensures
        s@ == base64_standard(data@),
{
    base64::Engine::encode(&base64::engine::general_purpose::STANDARD, data)
}

/// The error for an image file of an unsupported type.
pub open spec fn unsupported_image_text(path: Seq<char>) -> Seq<char> {
    "Unsupported image format: '"@ + path + "'. Supported: png, jpg, jpeg, gif, webp"@
}

/// The data URI of an image file read from `path` (shown as `path_display`),
/// whose extension is `extension`: the MIME type comes from the lowercased
/// extension, the payload is the base64 text of the bytes.
pub fn image_file_data_uri(path_display: &str, extension: Option<&str>, data: &[u8]) -> (r: Result<
    String,
    RavenClawsError,
>)
    ensures
        match extension {
            Some(e) if image_mime_spec(lowercase(e@)) is Some => r matches Ok(u) && u@ == "data:"@
                + image_mime_spec(lowercase(e@)).unwrap() + ";base64,"@ + base64_standard(data@),
            _ => r matches Err(RavenClawsError::CommandExecution(m)) && m@ == unsupported_image_text(
                path_display@,
            ),
        },
{
    let mime = match extension {
        Some(e) => {
            let lower = to_lowercase(e);
            image_mime(lower.as_str())
        },
        None => None,
    };
    match mime {
        Some(t) => {
            let encoded = base64_encode(data);
            Ok(image_data_uri(t, encoded.as_str()))
        },
        None => {
            let mut v: Vec<char> = Vec::new();
            push_str(&mut v, "Unsupported image format: '");
            push_str(&mut v, path_display);
            push_str(&mut v, "'. Supported: png, jpg, jpeg, gif, webp");
            Err(RavenClawsError::CommandExecution(string_from_chars(&v)))
        },
    }
}

// ── Messages ───────────────────────────────────────────────────────────────

/// URL or data URI of an image in a multi-modal message.
#[derive(Debug, Clone)]
pub struct ImageUrlContent {
    pub url: String,
}

/// A content part of a multi-modal message.
#[derive(Debug, Clone)]
pub enum ContentPart {
    /// Plain text.
    Text { text: String },
    /// An image given as a data URI.
    ImageUrl { image_url: ImageUrlContent },
}

impl ContentPart {
    /// A text part.
    pub fn text(text: &str) -> (p: Self)
        ensures
            p matches ContentPart::Text { text: t } && t@ == text@,
    {
        ContentPart::Text { text: String::from_str(text) }
    }

    /// An image part from a data URI.
    pub fn image(data_uri: String) -> (p: Self)
        ensures
            p matches ContentPart::ImageUrl { image_url } && image_url.url == data_uri,
    {
        ContentPart::ImageUrl { image_url: ImageUrlContent { url: data_uri } }
    }
}

/// A chat message.
#[derive(Debug, Clone)]
pub struct ChatMessage {
    pub role: String,
    pub content: String,
    /// Structured parts of a multi-modal message; `content` is then the text fallback.
    pub content_parts: Option<Vec<ContentPart>>,
}

impl ChatMessage {
    /// A text-only message.
    pub fn new(role: &str, content: &str) -> (m: Self)
        ensures
            m.role@ == role@,
            m.content@ == content@,
            m.content_parts is None,
    {
        ChatMessage {
            role: String::from_str(role),
            content: String::from_str(content),
            content_parts: None,
        }
    }

    /// A multi-modal message: the text part first, then one image part per data URI.
    pub fn with_images(role: &str, text: &str, image_data_uris: Vec<String>) -> (m: Self)
        ensures
            m.role@ == role@,
            m.content@ == text@,
            m.content_parts matches Some(parts) && parts@.len() == image_data_uris@.len() + 1
                && (parts@[0] matches ContentPart::Text { text: t } && t@ == text@) && forall|i: int|
                0 <= i < image_data_uris@.len() ==> (#[trigger] parts@[i + 1] matches
                ContentPart::ImageUrl { image_url } && image_url.url == image_data_uris@[i]),
    {
        let mut parts: Vec<ContentPart> = Vec::new();
        parts.push(ContentPart::text(text));
        let mut i: usize = 0;
        while i < image_data_uris.len()
            invariant
                i <= image_data_uris@.len(),
                parts@.len() == i + 1,
                parts@[0] matches ContentPart::Text { text: t } && t@ == text@,
                forall|k: int|
                    0 <= k < i ==> (#[trigger] parts@[k + 1] matches ContentPart::ImageUrl {
                        image_url,
                    } && image_url.url == image_data_uris@[k]),
            decreases image_data_uris@.len() - i,
        {
            let uri = image_data_uris[i].clone();
            parts.push(ContentPart::image(uri));
            i = i + 1;
        }
        ChatMessage {
            role: String::from_str(role),
            content: String::from_str(text),
            content_parts: Some(parts),
        }
    }

    /// The base64 payloads of the data-URI image parts, for Ollama's `images`
    /// array; `None` when the message has no parts or none of them is such an image.
    pub fn ollama_images(&self) -> (r: Option<Vec<String>>)
        ensures
            match self.content_parts {
                None => r is None,
                Some(parts) => {
                    let imgs = ollama_images_spec(parts@);
                    if imgs.len() == 0 {
                        r is None
                    } else {
                        r matches Some(v) && v@.len() == imgs.len() && forall|i: int|
                            0 <= i < imgs.len() ==> #[trigger] v@[i]@ == imgs[i]
                    }
                },
            },
    {
        match &self.content_parts {
            None => None,
            Some(parts) => {
                let mut out: Vec<String> = Vec::new();
                let mut i: usize = 0;
                while i < parts.len()
                    invariant
                        i <= parts@.len(),
                        out@.len() == ollama_images_spec(parts@.take(i as int)).len(),
                        forall|k: int|
                            0 <= k < out@.len() ==> #[trigger] out@[k]@ == ollama_images_spec(
                                parts@.take(i as int),
                            )[k],
                    decreases parts@.len() - i,
                {
                    proof {
                        assert(parts@.take(i + 1).drop_last() =~= parts@.take(i as int));
                    }
                    match &parts[i] {
                        ContentPart::ImageUrl { image_url } => {
                            match data_uri_payload(image_url.url.as_str()) {
                                Some(d) => out.push(d),
                                None => {},
                            }
                        },
                        _ => {},
                    }
                    i = i + 1;
                }
                assert(parts@.take(parts@.len() as int) =~= parts@);
                if out.len() == 0 {
                    None
                } else {
                    Some(out)
                }
            },
        }
    }
}

/// Splits a data URI `data:{media};base64,{data}` at the first `;base64,`.
pub open spec fn data_uri_split(url: Seq<char>) -> Option<(Seq<char>, Seq<char>)> {
    if !has_prefix(url, "data:"@) {
        None
    } else {
        let rest = url.subrange(5, url.len() as int);
        match first_occurrence(rest, ";base64,"@) {
            None => None,
            Some(i) => Some((rest.subrange(0, i), rest.subrange(i + 8, rest.len() as int))),
        }
    }
}

/// Index of the first occurrence of `n` in `s` at or after `k`.
pub open spec fn first_occurrence_from(s: Seq<char>, n: Seq<char>, k: int) -> Option<int>
    decreases s.len() + 1 - k,
{
    if k < 0 || k + n.len() > s.len() {
        None
    } else if s.subrange(k, k + n.len()) == n {
        Some(k)
    } else {
        first_occurrence_from(s, n, k + 1)
    }
}

/// Index of the first occurrence of `n` in `s`.
pub open spec fn first_occurrence(s: Seq<char>, n: Seq<char>) -> Option<int> {
    first_occurrence_from(s, n, 0)
}

/// The base64 payloads of the data-URI image parts among `parts`, in order.
pub open spec fn ollama_images_spec(parts: Seq<ContentPart>) -> Seq<Seq<char>>
    decreases parts.len(),
{
    if parts.len() == 0 {
        seq![]
    } else {
        let prev = ollama_images_spec(parts.drop_last());
        match parts.last() {
            ContentPart::ImageUrl { image_url } => match data_uri_split(image_url.url@) {
                Some(p) => prev.push(p.1),
                None => prev,
            },
            _ => prev,
        }
    }
}

/// Finds the first occurrence of `n` in `s`.
pub fn find(s: &[char], n: &[char]) -> (r: Option<usize>)
    ensures
        match first_occurrence(s@, n@) {
            None => r is None,
            Some(i) => r matches Some(k) && k == i && 0 <= i && i + n@.len() <= s@.len(),
        },
{
    if n.len() > s.len() {
        return None;
    }
    let last = s.len() - n.len();
    let mut i: usize = 0;
    loop
        invariant
            last == s@.len() - n@.len(),
            n@.len() <= s@.len(),
            i <= last,
            first_occurrence(s@, n@) == first_occurrence_from(s@, n@, i as int),
        ensures
            first_occurrence(s@, n@) == first_occurrence_from(s@, n@, last + 1),
        decreases last - i,
    {
        if matches_at(s, n, i) {
            return Some(i);
        }
        if i == last {
            break;
        }
        i = i + 1;
    }
    None
}

/// The base64 payload of a data URI, if it is one.
pub fn data_uri_payload(url: &str) -> (r: Option<String>)
    ensures
        match data_uri_split(url@) {
            None => r is None,
            Some(p) => r matches Some(d) && d@ == p.1,
        },
{
    match data_uri_parts(url) {
        None => None,
        Some((_, d)) => Some(d),
    }
}

/// The media type and base64 payload of a data URI, if it is one.
pub fn data_uri_parts(url: &str) -> (r: Option<(String, String)>)
    ensures
        match data_uri_split(url@) {
            None => r is None,
            Some(p) => r matches Some(q) && q.0@ == p.0 && q.1@ == p.1,
        },
{
    let u = chars_of(url);
    let prefix = chars_of("data:");
    let sep = chars_of(";base64,");
    proof {
        reveal_strlit("data:");
        reveal_strlit(";base64,");
    }
    assert(prefix@.len() == 5 && sep@.len() == 8);
    if !matches_at(&u, &prefix, 0) {
        return None;
    }
    let rest = slice_range(&u, 5, u.len());
    assert(rest@ == url@.subrange(5, url@.len() as int));
    let f = find(&rest, &sep);
    match f {
        None => None,
        Some(i) => {
            let media = slice_range(&rest, 0, i);
            let data = slice_range(&rest, i + 8, rest.len());
            Some((string_from_chars(&media), string_from_chars(&data)))
        },
    }
}

/// How Anthropic receives one content part.
#[derive(Debug, Clone, PartialEq, Eq)]
pub enum AnthropicPart {
    /// A text block.
    Text(String),
    /// A base64 image block with its media type.
    Image { media_type: String, data: String },
}

/// The Anthropic form of a content part: data-URI images become image blocks;
/// any other image becomes a text note with the first 100 characters of its URL.
pub open spec fn anthropic_part_spec(p: ContentPart) -> (Seq<char>, Option<(Seq<char>, Seq<char>)>) {
    match p {
        ContentPart::Text { text } => (text@, None),
        ContentPart::ImageUrl { image_url } => match data_uri_split(image_url.url@) {
            Some(q) => (seq![], Some(q)),
            None => (
                "[Image: "@ + image_url.url@.take(
                    if image_url.url@.len() < 100 { image_url.url@.len() as int } else { 100 },
                ) + "]"@,
                None,
            ),
        },
    }
}

/// Converts a content part to its Anthropic form.
pub fn anthropic_part(p: &ContentPart) -> (r: AnthropicPart)
    ensures
        match anthropic_part_spec(*p) {
            (t, None) => r matches AnthropicPart::Text(s) && s@ == t,
            (_, Some(q)) => r matches AnthropicPart::Image { media_type, data } && media_type@
                == q.0 && data@ == q.1,
        },
{
    match p {
        ContentPart::Text { text } => AnthropicPart::Text(text.clone()),
        ContentPart::ImageUrl { image_url } => {
            match data_uri_parts(image_url.url.as_str()) {
                Some((m, d)) => AnthropicPart::Image { media_type: m, data: d },
                None => {
                    let u = chars_of(image_url.url.as_str());
                    let n = if u.len() < 100 { u.len() } else { 100 };
                    let head = slice_range(&u, 0, n);
                    let mut v: Vec<char> = Vec::new();
                    push_str(&mut v, "[Image: ");
                    push_chars(&mut v, &head);
                    push_str(&mut v, "]");
                    assert(u@.subrange(0, n as int) =~= u@.take(n as int));
                    AnthropicPart::Text(string_from_chars(&v))
                },
            }
        },
    }
}

// ── Responses ──────────────────────────────────────────────────────────────

/// A function call requested by the model.
#[derive(Debug, Clone)]
pub struct FunctionCall {
    pub name: String,
    /// The arguments as JSON text.
    pub arguments: String,
}

/// A structured tool call in a response.
#[derive(Debug, Clone)]
pub struct ToolCallResponse {
    pub id: String,
    pub call_type: String,
    pub function: FunctionCall,
}

/// One choice of a chat response.
#[derive(Debug, Clone)]
pub struct Choice {
    pub index: u32,
    pub message: ChatMessage,
    pub finish_reason: Option<String>,
    pub tool_calls: Option<Vec<ToolCallResponse>>,
}

/// A piece of a streamed response: the text it adds and, on the last piece,
/// why the stream finished.
#[derive(Debug, Clone)]
pub struct StreamChunk {
    pub content: String,
    pub finish_reason: Option<String>,
}

/// Token usage reported with a response.
#[derive(Debug, Clone, Copy)]
pub struct Usage {
    pub prompt_tokens: u32,
    pub completion_tokens: u32,
    pub total_tokens: u32,
}

/// A chat response.
#[derive(Debug, Clone)]
pub struct ChatResponse {
    pub id: String,
    pub object: String,
    pub created: u64,
    pub model: String,
    pub choices: Vec<Choice>,
    pub usage: Option<Usage>,
}

/// The content of the first choice, or empty text when there is none.
pub fn first_choice_content(r: &ChatResponse) -> (s: String)
    ensures
        if r.choices@.len() > 0 {
            s@ == r.choices@[0].message.content@
        } else {
            s@ == Seq::<char>::empty()
        },
{
    if r.choices.len() > 0 {
        r.choices[0].message.content.clone()
    } else {
        String::new()
    }
}

/// The whole response as one stream piece, for providers that do not stream:
/// the first choice's content and finish reason (empty and none without a
/// choice).
pub fn response_chunk(r: &ChatResponse) -> (c: StreamChunk)
    ensures
        if r.choices@.len() > 0 {
            c.content@ == r.choices@[0].message.content@ && c.finish_reason == r.choices@[0].finish_reason
        } else {
            c.content@ == Seq::<char>::empty() && c.finish_reason is None
        },
{
    if r.choices.len() > 0 {
        let finish_reason = match &r.choices[0].finish_reason {
            Some(f) => Some(f.clone()),
            None => None,
        };
        StreamChunk { content: r.choices[0].message.content.clone(), finish_reason }
    } else {
        StreamChunk { content: String::new(), finish_reason: None }
    }
}

// ── Budgets ────────────────────────────────────────────────────────────────

/// Token budget tracker.
#[derive(Debug, Clone, Copy)]
pub struct TokenBudget {
    /// Maximum tokens allowed.
    pub max_tokens: u32,
    /// Tokens used so far.
    pub used_tokens: u32,
}

/// Tokens still available in a budget (never negative).
pub open spec fn budget_remaining(b: TokenBudget) -> int {
    if b.used_tokens <= b.max_tokens { b.max_tokens - b.used_tokens } else { 0 }
}

/// The budget after `tokens` more were used, saturating at `u32::MAX`.
pub open spec fn budget_after(b: TokenBudget, tokens: u32) -> TokenBudget {
    TokenBudget {
        used_tokens: if b.used_tokens + tokens <= u32::MAX { (b.used_tokens + tokens) as u32 } else { u32::MAX },
        ..b
    }
}

/// Law: spending what the budget says can be spent lowers what remains by
/// exactly that amount, and what remains never exceeds the maximum.
pub proof fn lemma_spend_within_budget(b: TokenBudget, tokens: u32)
    requires
        tokens <= budget_remaining(b),
    ensures
        budget_remaining(budget_after(b, tokens)) == budget_remaining(b) - tokens,
        0 <= budget_remaining(budget_after(b, tokens)) <= b.max_tokens,
{
}

impl TokenBudget {
    /// A budget of `max_tokens` with nothing used.
    pub fn new(max_tokens: u32) -> (b: Self)
        ensures
            b.max_tokens == max_tokens,
            b.used_tokens == 0,
    {
        TokenBudget { max_tokens, used_tokens: 0 }
    }

    /// Tokens still available (never negative).
    pub fn remaining(&self) -> (r: u32)
        ensures
            r == budget_remaining(*self),
    {
        if self.used_tokens <= self.max_tokens {
            self.max_tokens - self.used_tokens
        } else {
            0
        }
    }

    /// Whether `tokens` more can be spent.
    pub fn can_spend(&self, tokens: u32) -> (b: bool)
        ensures
            b == (tokens <= budget_remaining(*self)),
    {
        self.remaining() >= tokens
    }

    /// Records usage, saturating at `u32::MAX`.
    pub fn record_usage(&mut self, tokens: u32)
        ensures
            *final(self) == budget_after(*old(self), tokens),
    {
        self.used_tokens = self.used_tokens.saturating_add(tokens);
    }
}

// ── Multi-model ────────────────────────────────────────────────────────────

/// The index the round-robin selection picks after `last_index` among `count` clients.
pub fn next_client_index(last_index: usize, count: usize) -> (r: Option<usize>)
    requires
        count == 0 || last_index < usize::MAX,
    ensures
        count == 0 ==> r is None,
        count > 0 ==> r == Some(((last_index + 1) % (count as int)) as usize),
{
    if count == 0 {
        return None;
    }
    Some((last_index + 1) % count)
}

} // verus!
