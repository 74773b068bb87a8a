pub mod fetch_job;
pub mod fund_source;
pub mod http_client;
pub mod valuation_search;
