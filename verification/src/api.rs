//! The API access layer: endpoint paths, concurrency limits, token
//! lifecycle, response classification, pagination, and the SOAP fallback.

pub mod auth;
pub mod client;
pub mod endpoints;
pub mod rate_limiter;
pub mod soap_client;

