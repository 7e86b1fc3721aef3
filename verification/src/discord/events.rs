//! Events the bot reacts to.
pub mod messages;
