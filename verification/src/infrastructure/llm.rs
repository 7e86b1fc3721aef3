//! The language model that answers in threads.
pub mod agent;
pub mod client;
pub mod embedding;

use vstd::prelude::*;

verus! {

/// How the model is set up: the most tokens of an answer, how many tools
/// (picked by similarity to the prompt) it is offered, and its standing
/// instructions, if any.
#[derive(Debug, Clone, PartialEq, Eq)]
pub struct AgentSettings {
    pub max_tokens: u64,
    pub dynamic_tools: usize,
    pub preamble: Option<String>,
}

} // verus!
