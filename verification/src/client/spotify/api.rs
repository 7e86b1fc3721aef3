//! Endpoints of the Spotify accounts service.
pub mod token;
