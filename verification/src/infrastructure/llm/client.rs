//! The plain agent, without standing instructions.
use vstd::prelude::*;

use super::AgentSettings;

verus! {

/// Answers of up to 25000 tokens, 10 tools offered, no preamble.
pub fn settings() -> (settings: AgentSettings)
    ensures
        settings.max_tokens == 25000,
        settings.dynamic_tools == 10,
        settings.preamble is None,
{
    AgentSettings { max_tokens: 25000, dynamic_tools: 10, preamble: None }
}

} // verus!
