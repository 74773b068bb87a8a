//! Alerts raised by rules.

use vstd::prelude::*;

verus! {

/// An alert as stored.
#[derive(Debug, Clone)]
pub struct AlertEvent {
    pub id: i64,
    pub rule_id: i64,
    pub fund_id: i64,
    pub reason: String,
    pub status: String,
    pub triggered_at: i128,
    pub notification_result: Option<String>,
    pub created_at: i128,
    pub updated_at: i128,
}

/// An alert to store.
#[derive(Debug, Clone)]
pub struct NewAlertEvent {
    pub rule_id: i64,
    pub fund_id: i64,
    pub reason: String,
    pub status: String,
    pub triggered_at: i128,
    pub notification_result: Option<String>,
}

/// An alert with the code and name of its fund and the type of its rule, as the pages list it.
#[derive(Debug, Clone)]
pub struct AlertListItem {
    pub id: i64,
    pub rule_id: i64,
    pub fund_id: i64,
    pub fund_code: String,
    pub fund_name: String,
    pub rule_type: String,
    pub reason: String,
    pub status: String,
    pub triggered_at: i128,
    pub notification_result: Option<String>,
    pub created_at: i128,
    pub updated_at: i128,
}

impl AlertListItem {
    /// A field-for-field copy of the item.
    pub fn copy(&self) -> (res: AlertListItem)
        ensures
            res == *self,
    {
        AlertListItem {
            id: self.id,
            rule_id: self.rule_id,
            fund_id: self.fund_id,
            fund_code: self.fund_code.clone(),
            fund_name: self.fund_name.clone(),
            rule_type: self.rule_type.clone(),
            reason: self.reason.clone(),
            status: self.status.clone(),
            triggered_at: self.triggered_at,
            notification_result: match &self.notification_result {
                Some(n) => Some(n.clone()),
                None => None,
            },
            created_at: self.created_at,
            updated_at: self.updated_at,
        }
    }
}

} // verus!
