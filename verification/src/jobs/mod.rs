//! Polling jobs.

pub mod poll_funds;
pub mod round;
pub mod rule_checks;
