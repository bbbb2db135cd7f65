//! RavenClaws core: the verified decision logic of a lightweight, secure agent runtime.

pub mod config;
pub mod heartbeat;
pub mod text;
pub mod llm;
pub mod error;
pub mod agent;
pub mod clock;
pub mod backoff;
pub mod healing;
pub mod load;
pub mod audit;
pub mod eval;
pub mod mcp;
pub mod k8s;
pub mod blueprint;
pub mod background;
pub mod integrations;
pub mod supervisor;
pub mod tool_gate;
pub mod modes;
pub mod wire;
