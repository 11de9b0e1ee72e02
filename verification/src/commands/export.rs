//! Export result reporting and the flattening of device assets for
//! tabular output.

use crate::models::device::DeviceAsset;
use vstd::prelude::*;

verus! {

/// The summary an export run reports: the run always completes with a
/// summary rather than aborting on the first error.
#[derive(Debug, Clone)]
pub struct ExportResult {
    /// Whether the run succeeded as a whole.
    pub success: bool,
    /// A human-readable summary.
    pub message: String,
    /// The files written.
    pub files_created: Vec<String>,
    /// Total records written.
    pub total_records: usize,
    /// Warnings gathered along the way.
    pub warnings: Vec<String>,
    /// Errors gathered along the way.
    pub errors: Vec<String>,
}

/// A device asset flattened to one row: the computer system, BIOS, first
/// processor, memory and first disk drive, side by side.
#[derive(Debug, Clone)]
pub struct DeviceAssetFlat {
    /// Owning device id.
    pub device_id: i64,
    /// System manufacturer.
    pub system_manufacturer: Option<String>,
    /// System model.
    pub system_model: Option<String>,
    /// Domain name.
    pub domain: Option<String>,
    /// Domain role label.
    pub domain_role: Option<String>,
    /// BIOS manufacturer.
    pub bios_manufacturer: Option<String>,
    /// BIOS name.
    pub bios_name: Option<String>,
    /// BIOS serial number.
    pub bios_serial_number: Option<String>,
    /// BIOS version.
    pub bios_version: Option<String>,
    /// First processor's name.
    pub processor_name: Option<String>,
    /// First processor's manufacturer.
    pub processor_manufacturer: Option<String>,
    /// First processor's maximum clock speed.
    pub processor_max_clock_speed: Option<i64>,
    /// First processor's core count.
    pub processor_cores: Option<i32>,
    /// First processor's logical processor count.
    pub processor_logical_processors: Option<i32>,
    /// Total physical memory in bytes.
    pub total_physical_memory: Option<i64>,
    /// Available physical memory in bytes.
    pub available_physical_memory: Option<i64>,
    /// First disk's name.
    pub disk_name: Option<String>,
    /// First disk's capacity.
    pub disk_size: Option<i64>,
    /// First disk's free space.
    pub disk_free_space: Option<i64>,
}

fn clone_opt_string(o: &Option<String>) -> (r: Option<String>)
    ensures
        r == *o,
{
    match o {
        Some(s) => Some(s.clone()),
        None => None,
    }
}

impl DeviceAssetFlat {
    /// Flattens an asset: absent sections yield empty cells, and only the
    /// first processor and the first disk drive are carried.
    pub fn from_asset(a: &DeviceAsset) -> (r: Self)
        ensures
            r.device_id == a.device_id,
            r.system_manufacturer == (match a.computer_system {
                Some(cs) => cs.manufacturer,
                None => None::<String>,
            }),
            r.system_model == (match a.computer_system {
                Some(cs) => cs.model,
                None => None::<String>,
            }),
            r.domain == (match a.computer_system {
                Some(cs) => cs.domain,
                None => None::<String>,
            }),
            r.domain_role == (match a.computer_system {
                Some(cs) => cs.domain_role,
                None => None::<String>,
            }),
            r.bios_manufacturer == (match a.bios {
                Some(b) => b.manufacturer,
                None => None::<String>,
            }),
            r.bios_name == (match a.bios {
                Some(b) => b.name,
                None => None::<String>,
            }),
            r.bios_serial_number == (match a.bios {
                Some(b) => b.serial_number,
                None => None::<String>,
            }),
            r.bios_version == (match a.bios {
                Some(b) => b.version,
                None => None::<String>,
            }),
            r.processor_name == (match a.processor {
                Some(ps) => if ps@.len() > 0 {
                    ps@[0].name
                } else {
                    None::<String>
                },
                None => None::<String>,
            }),
            r.processor_manufacturer == (match a.processor {
                Some(ps) => if ps@.len() > 0 {
                    ps@[0].manufacturer
                } else {
                    None::<String>
                },
                None => None::<String>,
            }),
            r.processor_max_clock_speed == (match a.processor {
                Some(ps) => if ps@.len() > 0 {
                    ps@[0].max_clock_speed
                } else {
                    None::<i64>
                },
                None => None::<i64>,
            }),
            r.processor_cores == (match a.processor {
                Some(ps) => if ps@.len() > 0 {
                    ps@[0].number_of_cores
                } else {
                    None::<i32>
                },
                None => None::<i32>,
            }),
            r.processor_logical_processors == (match a.processor {
                Some(ps) => if ps@.len() > 0 {
                    ps@[0].number_of_logical_processors
                } else {
                    None::<i32>
                },
                None => None::<i32>,
            }),
            r.total_physical_memory == (match a.memory {
                Some(m) => m.total_physical_memory,
                None => None::<i64>,
            }),
            r.available_physical_memory == (match a.memory {
                Some(m) => m.available_physical_memory,
                None => None::<i64>,
            }),
            r.disk_name == (match a.disk_drive {
                Some(ds) => if ds@.len() > 0 {
                    ds@[0].name
                } else {
                    None::<String>
                },
                None => None::<String>,
            }),
            r.disk_size == (match a.disk_drive {
                Some(ds) => if ds@.len() > 0 {
                    ds@[0].size
                } else {
                    None::<i64>
                },
                None => None::<i64>,
            }),
            r.disk_free_space == (match a.disk_drive {
                Some(ds) => if ds@.len() > 0 {
                    ds@[0].free_space
                } else {
                    None::<i64>
                },
                None => None::<i64>,
            }),
    {
        let system_manufacturer: Option<String> = match &a.computer_system {
            Some(cs) => clone_opt_string(&cs.manufacturer),
            None => None,
        };
        let system_model: Option<String> = match &a.computer_system {
            Some(cs) => clone_opt_string(&cs.model),
            None => None,
        };
        let domain: Option<String> = match &a.computer_system {
            Some(cs) => clone_opt_string(&cs.domain),
            None => None,
        };
        let domain_role: Option<String> = match &a.computer_system {
            Some(cs) => clone_opt_string(&cs.domain_role),
            None => None,
        };
        let bios_manufacturer: Option<String> = match &a.bios {
            Some(b) => clone_opt_string(&b.manufacturer),
            None => None,
        };
        let bios_name: Option<String> = match &a.bios {
            Some(b) => clone_opt_string(&b.name),
            None => None,
        };
        let bios_serial_number: Option<String> = match &a.bios {
            Some(b) => clone_opt_string(&b.serial_number),
            None => None,
        };
        let bios_version: Option<String> = match &a.bios {
            Some(b) => clone_opt_string(&b.version),
            None => None,
        };
        let processor_name: Option<String> = match &a.processor {
            Some(ps) => if ps.len() > 0 {
                clone_opt_string(&ps[0].name)
            } else {
                None
            },
            None => None,
        };
        let processor_manufacturer: Option<String> = match &a.processor {
            Some(ps) => if ps.len() > 0 {
                clone_opt_string(&ps[0].manufacturer)
            } else {
                None
            },
            None => None,
        };
        let processor_max_clock_speed: Option<i64> = match &a.processor {
            Some(ps) => if ps.len() > 0 {
                ps[0].max_clock_speed
            } else {
                None
            },
            None => None,
        };
        let processor_cores: Option<i32> = match &a.processor {
            Some(ps) => if ps.len() > 0 {
                ps[0].number_of_cores
            } else {
                None
            },
            None => None,
        };
        let processor_logical_processors: Option<i32> = match &a.processor {
            Some(ps) => if ps.len() > 0 {
                ps[0].number_of_logical_processors
            } else {
                None
            },
            None => None,
        };
        let total_physical_memory: Option<i64> = match &a.memory {
            Some(m) => m.total_physical_memory,
            None => None,
        };
        let available_physical_memory: Option<i64> = match &a.memory {
            Some(m) => m.available_physical_memory,
            None => None,
        };
        let disk_name: Option<String> = match &a.disk_drive {
            Some(ds) => if ds.len() > 0 {
                clone_opt_string(&ds[0].name)
            } else {
                None
            },
            None => None,
        };
        let disk_size: Option<i64> = match &a.disk_drive {
            Some(ds) => if ds.len() > 0 {
                ds[0].size
            } else {
                None
            },
            None => None,
        };
        let disk_free_space: Option<i64> = match &a.disk_drive {
            Some(ds) => if ds.len() > 0 {
                ds[0].free_space
            } else {
                None
            },
            None => None,
        };
        DeviceAssetFlat {
            device_id: a.device_id,
            system_manufacturer,
            system_model,
            domain,
            domain_role,
            bios_manufacturer,
            bios_name,
            bios_serial_number,
            bios_version,
            processor_name,
            processor_manufacturer,
            processor_max_clock_speed,
            processor_cores,
            processor_logical_processors,
            total_physical_memory,
            available_physical_memory,
            disk_name,
            disk_size,
            disk_free_space,
        }
    }
}

} // verus!
