//! Verified core of the fund monitor: rule evaluation, poll-round accounting,
//! form validation and the view models of the web pages.

pub mod app;
pub mod domain;
pub mod jobs;
pub mod notifications;
pub mod providers;
pub mod storage;
pub mod text;
pub mod web;
