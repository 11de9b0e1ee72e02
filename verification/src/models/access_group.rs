//! Access groups.

use vstd::prelude::*;

verus! {

/// A named bundle granting users access to org units or devices.
#[derive(Debug, Clone)]
pub struct AccessGroup {
    /// Numeric identifier.
    pub group_id: i64,
    /// Owning org unit id.
    pub org_unit_id: Option<i64>,
    /// Display name.
    pub group_name: Option<String>,
    /// Kind label: `DEVICE` groups target devices, anything else targets org
    /// units.
    pub group_type: Option<String>,
    /// Free-text description.
    pub group_description: Option<String>,
}

} // verus!
