//! The result a connection attempt reports back to the caller.

use vstd::prelude::*;

verus! {

/// What a connection attempt found.
#[derive(Debug, Clone)]
pub struct ConnectionResult {
    /// Whether the connection succeeded.
    pub success: bool,
    /// A human-readable summary.
    pub message: String,
    /// The server address reached.
    pub server_url: Option<String>,
    /// The server version reported.
    pub server_version: Option<String>,
    /// The service organization selected.
    pub service_org_id: Option<i64>,
    /// The service organization's name.
    pub service_org_name: Option<String>,
}

} // verus!
