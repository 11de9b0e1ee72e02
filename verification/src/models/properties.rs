//! Custom properties of org units and devices.

use vstd::prelude::*;

verus! {

/// A custom property attached to an org unit.
#[derive(Debug, Clone)]
pub struct OrgProperty {
    /// Property identifier.
    pub property_id: i64,
    /// Display label.
    pub label: Option<String>,
    /// Current value.
    pub value: Option<String>,
    /// Default value.
    pub default_value: Option<String>,
    /// Value kind label.
    pub property_type: Option<String>,
    /// Owning org unit id.
    pub org_unit_id: Option<i64>,
}

/// A custom property attached to a device.
#[derive(Debug, Clone)]
pub struct DeviceProperty {
    /// Property identifier.
    pub property_id: i64,
    /// Owning device id.
    pub device_id: Option<i64>,
    /// Owning device name.
    pub device_name: Option<String>,
    /// Display label.
    pub label: Option<String>,
    /// Current value.
    pub value: Option<String>,
    /// Default value.
    pub default_value: Option<String>,
    /// Value kind label.
    pub property_type: Option<String>,
}

} // verus!
