//! Data extraction and migration library for a remote-monitoring platform.
//!
//! The library covers the API access layer (authentication and token refresh,
//! per-endpoint concurrency limits, retry-on-throttle classification and
//! exhaustive pagination), a SOAP fallback client for the operations the REST
//! API does not expose, and the migration orchestrator's decision logic: the
//! five dependency-ordered phases that map an organizational hierarchy from a
//! source system onto a destination system by name and keep a source-id to
//! destination-id translation table.
//!
//! All network traffic is performed by the surrounding application; the
//! functions here compute, from plain values, what is to be sent and what a
//! response means.

pub mod text;
pub mod trusted;
pub mod api;
pub mod cli;
pub mod commands;
pub mod config;
pub mod credentials;
pub mod errors;
pub mod idmap;
pub mod migrate;
pub mod models;
