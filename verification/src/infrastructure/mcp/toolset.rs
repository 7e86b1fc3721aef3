//! The tools offered to the agent, read from the tool server.
use vstd::prelude::*;

verus! {

/// The tools offered to the agent.
pub struct ToolSet;

/// The server-sent events endpoint of the tool server.
pub open spec fn server_url_text() -> Seq<char> {
    "http://localhost:8000/sse"@
}

impl ToolSet {
    /// The endpoint the tools are read from.
    pub fn server_url() -> (url: &'static str)
        ensures
            url@ == server_url_text(),
    {
        proof { reveal_strlit("http://localhost:8000/sse"); }
        "http://localhost:8000/sse"
    }
}

} // verus!
