//! Monitoring rules.

use vstd::prelude::*;

verus! {

/// A monitoring rule. It applies to one fund (`fund_id`), to a group (`group_name`), or to all
/// funds; `threshold_config` is a JSON object of bounds; alerts of the rule are held back for
/// `cooldown_minutes` after the last one.
#[derive(Debug, Clone)]
pub struct MonitorRule {
    pub id: i64,
    pub fund_id: Option<i64>,
    pub group_name: Option<String>,
    pub rule_type: String,
    pub threshold_config: String,
    pub enabled: bool,
    pub cooldown_minutes: i64,
    pub last_triggered_at: Option<i128>,
    pub created_at: i128,
    pub updated_at: i128,
}

/// A rule to create.
#[derive(Debug, Clone)]
pub struct NewMonitorRule {
    pub fund_id: Option<i64>,
    pub group_name: Option<String>,
    pub rule_type: String,
    pub threshold_config: String,
    pub enabled: bool,
    pub cooldown_minutes: i64,
}

} // verus!
