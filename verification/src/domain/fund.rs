//! Funds under watch. Instants are Unix timestamps in nanoseconds.

use vstd::prelude::*;

verus! {

/// A fund in the watch list.
#[derive(Debug, Clone)]
pub struct Fund {
    pub id: i64,
    pub code: String,
    pub name: String,
    pub note: Option<String>,
    pub group_name: Option<String>,
    pub tags: Option<String>,
    pub enabled: bool,
    pub created_at: i128,
    pub updated_at: i128,
}

/// A fund to add to the watch list.
#[derive(Debug, Clone)]
pub struct NewFund {
    pub code: String,
    pub name: String,
    pub note: Option<String>,
    pub group_name: Option<String>,
    pub tags: Option<String>,
    pub enabled: bool,
}

/// New descriptive fields of a fund.
#[derive(Debug, Clone)]
pub struct UpdateFundMetadata {
    pub name: String,
    pub note: Option<String>,
    pub group_name: Option<String>,
    pub tags: Option<String>,
}

} // verus!
