//! How the bot is wired to its services: database pool, Discord client,
//! language model and the tool server.
pub mod database;
pub mod discord;
pub mod llm;
pub mod mcp;
