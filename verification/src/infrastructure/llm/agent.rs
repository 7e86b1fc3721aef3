//! The agent that answers in threads.
use vstd::prelude::*;

use super::AgentSettings;

verus! {

/// The agent answering in threads.
pub struct Agent;

/// The agent's standing instructions: use a tool when one fits, answer
/// without tools otherwise, and answer from a tool's result when one came.
pub open spec fn preamble_text() -> Seq<char> {
    "\n                    使用可能なツールがある場合は、ツールを使用してください。\n                    使用可能なツールがない場合は、ツールを使用せず回答してください。\n                    ツール呼び出しの結果を受け取った場合は、受け取った内容に基づいて回答してください。\n                "@
}

impl Agent {
    /// Answers of up to 25000 tokens, 30 tools offered, and the preamble.
    pub fn settings() -> (settings: AgentSettings)
        ensures
            settings.max_tokens == 25000,
            settings.dynamic_tools == 30,
            settings.preamble matches Some(preamble) && preamble@ == preamble_text(),
    {
        proof {
            reveal_strlit("\n                    使用可能なツールがある場合は、ツールを使用してください。\n                    使用可能なツールがない場合は、ツールを使用せず回答してください。\n                    ツール呼び出しの結果を受け取った場合は、受け取った内容に基づいて回答してください。\n                ");
        }
        AgentSettings {
            max_tokens: 25000,
            dynamic_tools: 30,
            preamble: Some(String::from_str("\n                    使用可能なツールがある場合は、ツールを使用してください。\n                    使用可能なツールがない場合は、ツールを使用せず回答してください。\n                    ツール呼び出しの結果を受け取った場合は、受け取った内容に基づいて回答してください。\n                ")),
        }
    }
}

} // verus!
