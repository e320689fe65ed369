//! A line-based query gateway: each client line names a dotted identifier,
//! whose trailing label selects an upstream authority; the query is forwarded
//! there and the upstream's answer is relayed back byte for byte.

pub mod error;
pub mod query;
pub mod routes;
pub mod session;
pub mod laws;
