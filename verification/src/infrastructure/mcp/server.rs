//! The tool server.
use vstd::prelude::*;

verus! {

/// The tool server, serving over server-sent events.
pub struct Server;

/// The address the tool server listens on.
pub open spec fn bind_address_text() -> Seq<char> {
    "127.0.0.1:8000"@
}

impl Server {
    /// The address the tool server listens on.
    pub fn bind_address() -> (address: &'static str)
        ensures
            address@ == bind_address_text(),
    {
        proof { reveal_strlit("127.0.0.1:8000"); }
        "127.0.0.1:8000"
    }
}

/// The service the tool server offers.
#[derive(Debug, Clone, Copy, PartialEq, Eq, Structural)]
pub struct Mcp;

/// What the `mcp` tool answers.
pub open spec fn mcp_answer_text() -> Seq<char> {
    "MCP サーバーを使っています"@
}

impl Mcp {
    pub fn new() -> (service: Self)
        ensures
            service == Mcp,
    {
        Self
    }

    /// The `mcp` tool, which confirms that the tool server is in use.
    pub fn mcp() -> (answer: String)
        ensures
            answer@ == mcp_answer_text(),
    {
        proof { reveal_strlit("MCP サーバーを使っています"); }
        String::from_str("MCP サーバーを使っています")
    }
}

} // verus!
