//! View models of the web pages and the decisions of their forms.

pub mod alerts;
pub mod dashboard;
pub mod funds;
pub mod layout;
pub mod rules;
pub mod settings;
