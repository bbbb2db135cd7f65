# RavenClaws

A lightweight, secure agent runtime with multi-provider LLM support
(LiteLLM, OpenAI, OpenRouter, Ollama, Anthropic, any OpenAI-compatible
endpoint): single-agent, swarm, supervisor, heartbeat and REPL modes, an MCP
server, background tasks, an eval harness and a tamper-evident audit log.

## Layout

- `src/` — the library, verified with Verus. It holds the decisions of the
  runtime: configuration overrides and validation, the agent loop, the
  supervisor and heartbeat state machines, the tool-call gates, the
  HMAC-chained audit log, retries, backoff and circuit breaking, load
  shedding, background-task lifecycle, MCP routing and replies, request and
  reply shaping for each provider, eval assertions, Kubernetes worker specs
  and notification plans. Every public function states its behaviour in
  `requires` / `ensures`; the laws that span several calls are public proof
  functions (for example `audit::lemma_appended_log_verifies` and
  `llm::lemma_consecutive_failures_open_circuit`).
- `app/` — the executable: command-line parsing, configuration files,
  HTTP requests to the providers, the terminal, files on disk, sleeps and the
  MCP stdio transport. It asks the library what to do and performs it.
- `tests/` — tests of the library on concrete values.

Calls into outside crates that the library makes (HMAC-SHA256, hex and
base64 encoding, JSON parsing, regular expressions, lowercasing, random
numbers, the clock, semaphores) go through small trusted wrappers whose
contracts are documented where they are declared.

## What this build leaves out

The tool registry, the policy engine and its prompt-injection screening, the
command sandbox, the swarm orchestrator, the scheduler, the HTTP API server,
telemetry export, session persistence, the agent patterns, RavenFabric, the
terminal UI and the web-fetch policy are not part of this build. What
depends on them behaves as follows:

- `--mode orchestrate` stops at startup with the error "Swarm orchestration
  is not available in this build".
- The MCP servers (stdio and SSE) answer `tools/list` with an empty list and
  every `tools/call` with "Unknown tool: NAME" (the call and its failure are
  still written to the audit log).
- The tool gate (`tool_gate`) is verified for any policy decision, but the
  runners hand it `PolicyDecision::Allow`, since there is no policy engine to
  ask; with `require_approval` set, every tool call is put to the user,
  since no policy says which tools may run unasked.
- Model responses are not screened for prompt injection: the agent loop is
  told of no finding, so its `SecurityViolation` branch is never taken from
  the command line.
- Only the audit log's HMAC key is held in memory that is wiped on drop
  (`zeroize`); provider API keys are plain strings.
