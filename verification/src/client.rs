//! Clients of outside services.
pub mod spotify;
