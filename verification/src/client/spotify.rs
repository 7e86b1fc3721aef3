//! The Spotify Web API.
pub mod api;
