//! A single-swap trading utility: the decisions, parsing and request
//! assembly behind one buy or sell against a swap aggregator.
pub mod api;
pub mod chain;
pub mod config;
pub mod instructions;
pub mod plan;
pub mod retry;
pub mod sign;
pub mod url;
pub mod units;
