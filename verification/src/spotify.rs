//! Spotify data the bot reads: followed artists and their tracks.
pub mod artist;
pub mod track;
