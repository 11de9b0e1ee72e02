//! Devices and their asset inventory.

use vstd::prelude::*;

verus! {

/// A monitored device.
#[derive(Debug, Clone)]
pub struct Device {
    /// Numeric identifier.
    pub device_id: i64,
    /// Resource reference.
    pub uri: Option<String>,
    /// Remote control reference.
    pub remote_control_uri: Option<String>,
    /// Source reference.
    pub source_uri: Option<String>,
    /// Long display name.
    pub long_name: Option<String>,
    /// Device class key.
    pub device_class: Option<String>,
    /// Device class label.
    pub device_class_label: Option<String>,
    /// Free-text description.
    pub description: Option<String>,
    /// Whether the device is a probe.
    pub is_probe: Option<bool>,
    /// Operating system key.
    pub os_id: Option<String>,
    /// Supported OS key.
    pub supported_os: Option<String>,
    /// Supported OS label.
    pub supported_os_label: Option<String>,
    /// Name found at discovery.
    pub discovered_name: Option<String>,
    /// Last logged-in user.
    pub last_logged_in_user: Option<String>,
    /// Whether that user is still logged in.
    pub still_logged_in: Option<bool>,
    /// License mode label.
    pub license_mode: Option<String>,
    /// Owning org unit id.
    pub org_unit_id: Option<i64>,
    /// Owning service org id.
    pub so_id: Option<i64>,
    /// Owning service org name.
    pub so_name: Option<String>,
    /// Owning customer id.
    pub customer_id: Option<i64>,
    /// Owning customer name.
    pub customer_name: Option<String>,
    /// Owning site id.
    pub site_id: Option<i64>,
    /// Owning site name.
    pub site_name: Option<String>,
    /// Appliance id.
    pub appliance_id: Option<i64>,
    /// Last appliance check-in timestamp text.
    pub last_appliance_checkin_time: Option<String>,
}

/// The asset inventory of a device.
#[derive(Debug, Clone)]
pub struct DeviceAsset {
    /// Owning device id.
    pub device_id: i64,
    /// Computer system details.
    pub computer_system: Option<ComputerSystem>,
    /// BIOS details.
    pub bios: Option<BiosInfo>,
    /// Processors, when reported.
    pub processor: Option<Vec<ProcessorInfo>>,
    /// Memory details.
    pub memory: Option<MemoryInfo>,
    /// Disk drives, when reported.
    pub disk_drive: Option<Vec<DiskDriveInfo>>,
}

/// Computer system details of an asset.
#[derive(Debug, Clone)]
pub struct ComputerSystem {
    /// Manufacturer.
    pub manufacturer: Option<String>,
    /// Model.
    pub model: Option<String>,
    /// Domain name.
    pub domain: Option<String>,
    /// Domain role label.
    pub domain_role: Option<String>,
}

/// BIOS details of an asset.
#[derive(Debug, Clone)]
pub struct BiosInfo {
    /// Manufacturer.
    pub manufacturer: Option<String>,
    /// BIOS name.
    pub name: Option<String>,
    /// Serial number.
    pub serial_number: Option<String>,
    /// BIOS version.
    pub version: Option<String>,
}

/// One processor of an asset.
#[derive(Debug, Clone)]
pub struct ProcessorInfo {
    /// Processor name.
    pub name: Option<String>,
    /// Manufacturer.
    pub manufacturer: Option<String>,
    /// Maximum clock speed.
    pub max_clock_speed: Option<i64>,
    /// Physical core count.
    pub number_of_cores: Option<i32>,
    /// Logical processor count.
    pub number_of_logical_processors: Option<i32>,
}

/// Memory details of an asset.
#[derive(Debug, Clone)]
pub struct MemoryInfo {
    /// Total physical memory in bytes.
    pub total_physical_memory: Option<i64>,
    /// Available physical memory in bytes.
    pub available_physical_memory: Option<i64>,
}

/// One disk drive of an asset.
#[derive(Debug, Clone)]
pub struct DiskDriveInfo {
    /// Drive name.
    pub name: Option<String>,
    /// Capacity in bytes.
    pub size: Option<i64>,
    /// Free space in bytes.
    pub free_space: Option<i64>,
}

} // verus!
