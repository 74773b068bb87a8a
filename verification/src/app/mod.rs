//! Application configuration and errors.

pub mod config;
pub mod errors;
