//! Command-line argument structures and which entity kinds a run covers.
//!
//! Argument parsing itself lives with the surrounding application; the
//! structures and the selection logic are here.

use crate::text::str_eq;
use vstd::prelude::*;

verus! {

/// Top-level command-line arguments.
#[derive(Debug, Clone)]
pub struct Cli {
    /// Server host name.
    pub server: Option<String>,
    /// Profile name to load settings from.
    pub profile: Option<String>,
    /// Verbose output.
    pub verbose: bool,
    /// The subcommand.
    pub command: Option<Commands>,
}

impl Default for Cli {
    /// Nothing selected.
    fn default() -> (r: Self)
        ensures
            r.server is None,
            r.profile is None,
            !r.verbose,
            r.command is None,
    {
        Cli { server: None, profile: None, verbose: false, command: None }
    }
}

/// The subcommands.
#[derive(Debug, Clone)]
pub enum Commands {
    /// Export data.
    Export(ExportArgs),
    /// Manage connection profiles.
    Profile(ProfileArgs),
    /// Test the connection.
    Test(TestArgs),
}

/// Arguments of the export command.
#[derive(Debug, Clone)]
pub struct ExportArgs {
    /// Bearer credential.
    pub jwt: Option<String>,
    /// Service organization to export from.
    pub service_org: i64,
    /// Output directory.
    pub output: String,
    /// Output formats.
    pub format: Vec<String>,
    /// Export every data kind.
    pub all: bool,
    /// Export service organizations.
    pub service_orgs: bool,
    /// Export customers.
    pub customers: bool,
    /// Export sites.
    pub sites: bool,
    /// Export devices.
    pub devices: bool,
    /// Export access groups.
    pub access_groups: bool,
    /// Export user roles.
    pub user_roles: bool,
    /// Export org unit properties.
    pub org_properties: bool,
    /// Export device properties.
    pub device_properties: bool,
}

/// Whether any kind was selected explicitly.
pub open spec fn spec_has_explicit_selection(a: ExportArgs) -> bool {
    a.service_orgs || a.customers || a.sites || a.devices || a.access_groups || a.user_roles
        || a.org_properties || a.device_properties
}

/// Whether the kind named `t` is exported: with `--all` or no explicit
/// selection, every kind but device properties is on by default; otherwise
/// exactly the selected kinds are on.
pub open spec fn spec_should_export(a: ExportArgs, t: Seq<char>) -> bool {
    if a.all || !spec_has_explicit_selection(a) {
        if t == "device_properties"@ {
            a.device_properties
        } else {
            true
        }
    } else {
        if t == "service_orgs"@ {
            a.service_orgs
        } else if t == "customers"@ {
            a.customers
        } else if t == "sites"@ {
            a.sites
        } else if t == "devices"@ {
            a.devices
        } else if t == "access_groups"@ {
            a.access_groups
        } else if t == "user_roles"@ {
            a.user_roles
        } else if t == "org_properties"@ {
            a.org_properties
        } else if t == "device_properties"@ {
            a.device_properties
        } else {
            false
        }
    }
}

impl ExportArgs {
    /// Whether any kind was selected explicitly.
    pub fn has_explicit_selection(&self) -> (r: bool)
        ensures
            r == spec_has_explicit_selection(*self),
    {
        self.service_orgs || self.customers || self.sites || self.devices || self.access_groups
            || self.user_roles || self.org_properties || self.device_properties
    }

    /// Whether the kind named `export_type` is exported.
    pub fn should_export(&self, export_type: &str) -> (r: bool)
        ensures
            r == spec_should_export(*self, export_type@),
    {
        if self.all || !self.has_explicit_selection() {
            if str_eq(export_type, "device_properties") {
                self.device_properties
            } else {
                true
            }
        } else {
            if str_eq(export_type, "service_orgs") {
                self.service_orgs
            } else if str_eq(export_type, "customers") {
                self.customers
            } else if str_eq(export_type, "sites") {
                self.sites
            } else if str_eq(export_type, "devices") {
                self.devices
            } else if str_eq(export_type, "access_groups") {
                self.access_groups
            } else if str_eq(export_type, "user_roles") {
                self.user_roles
            } else if str_eq(export_type, "org_properties") {
                self.org_properties
            } else if str_eq(export_type, "device_properties") {
                self.device_properties
            } else {
                false
            }
        }
    }
}

/// Arguments of the profile command.
#[derive(Debug, Clone)]
pub struct ProfileArgs {
    /// The profile subcommand.
    pub command: ProfileCommands,
}

/// Profile management subcommands.
#[derive(Debug, Clone)]
pub enum ProfileCommands {
    /// List saved profiles.
    List,
    /// Add or update a profile.
    Add {
        /// Profile name.
        name: String,
        /// Server host name.
        server: String,
        /// Service organization id.
        service_org: Option<i64>,
    },
    /// Delete a profile.
    Delete {
        /// Profile name.
        name: String,
    },
    /// Make a profile active.
    Use {
        /// Profile name.
        name: String,
    },
    /// Store credentials for a profile.
    SetCredentials {
        /// Profile name.
        name: String,
    },
}

/// Arguments of the connection test command.
#[derive(Debug, Clone)]
pub struct TestArgs {
    /// Bearer credential.
    pub jwt: Option<String>,
}

} // verus!
