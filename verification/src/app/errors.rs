//! Errors of fetching and storing fund data.

use vstd::prelude::*;

verus! {

/// Why fetching or storing a fund snapshot failed; each variant carries the message shown to users.
#[derive(Debug, Clone)]
pub enum FundIngestError {
    SourceUnavailable(String),
    InvalidSourceData(String),
    StorageFailure(String),
}

impl FundIngestError {
    /// The message carried by any variant.
    pub open spec fn message_view(&self) -> Seq<char> {
        match self {
            FundIngestError::SourceUnavailable(m) => m@,
            FundIngestError::InvalidSourceData(m) => m@,
            FundIngestError::StorageFailure(m) => m@,
        }
    }

    /// The data source could not be reached.
    pub fn source_unavailable(message: String) -> (res: Self)
        ensures
            res == FundIngestError::SourceUnavailable(message),
    {
        FundIngestError::SourceUnavailable(message)
    }

    /// The data source answered with data that cannot be used.
    pub fn invalid_source_data(message: String) -> (res: Self)
        ensures
            res == FundIngestError::InvalidSourceData(message),
    {
        FundIngestError::InvalidSourceData(message)
    }

    /// Reading or writing the store failed.
    pub fn storage_failure(message: String) -> (res: Self)
        ensures
            res == FundIngestError::StorageFailure(message),
    {
        FundIngestError::StorageFailure(message)
    }

    /// The message shown to users, whatever the variant.
    pub fn user_message(&self) -> (res: &str)
        ensures
            res@ == self.message_view(),
    {
        match self {
            FundIngestError::SourceUnavailable(message) => message.as_str(),
            FundIngestError::InvalidSourceData(message) => message.as_str(),
            FundIngestError::StorageFailure(message) => message.as_str(),
        }
    }
}

} // verus!
