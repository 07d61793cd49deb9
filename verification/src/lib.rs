//! A conversational turn orchestrator for a tool-augmented chat agent.
//!
//! The library keeps a bounded, turn-aligned conversation history, detects a
//! structured tool invocation in a model response, runs the bounded tool-hop
//! loop of one user turn, and parses the runtime configuration that the
//! surrounding process hands it.

use vstd::prelude::*;

pub mod config;
pub mod engine;
pub mod envelope;
pub mod history;
pub mod http_errors;
pub mod logging;
pub mod message;
pub mod model_gateway;
pub mod ollama;
pub mod repl;
pub mod text;
pub mod tools;

verus! {

/// Upper bound on the number of entries the history buffer may hold.
pub const MAX_HISTORY_MESSAGES: usize = 40;

/// Upper bound on the number of tool invocations within one user turn.
pub const MAX_TOOL_HOPS_PER_TURN: u64 = 2;

} // verus!
