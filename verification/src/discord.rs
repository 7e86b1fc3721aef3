//! What the bot does on Discord: its slash commands and its answers to
//! messages posted in its threads.
pub mod channel;
pub mod commands;
pub mod events;
