//! HTTP models, queries, parsing and error handling for the Alpaca REST API.

pub mod client;
pub mod error;
pub mod models;
pub mod paging;
pub mod parse;
pub mod parse_exec;
pub mod query;
