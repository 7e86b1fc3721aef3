//! The MySQL database.
pub mod pool;
