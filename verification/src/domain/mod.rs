//! The records the monitor keeps, and the rule engine that judges them.

pub mod alert_event;
pub mod fund;
pub mod fund_quote;
pub mod job_run;
pub mod monitor_rule;
pub mod rule_engine;
