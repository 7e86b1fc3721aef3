//! The decision logic of a Discord bot that answers questions in threads
//! with a language model, picks random music from Spotify and keeps the
//! conversation in a database.
//!
//! Everything that talks to Discord, Spotify, the database or the model
//! provider lives in the application around this crate; this crate holds
//! the values those calls are made with and the decisions taken on their
//! results.
pub mod chat;
pub mod client;
pub mod discord;
pub mod infrastructure;
pub mod model;
pub mod spotify;
pub mod text;
