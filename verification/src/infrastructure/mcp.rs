//! The tool server the agent calls through the Model Context Protocol.
pub mod server;
pub mod toolset;
