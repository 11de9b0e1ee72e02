//! Wire-level envelope types shared by the list endpoints, and the flat
//! option sets the callers hand in.

use vstd::prelude::*;

verus! {

/// Pagination metadata of a list response.
#[derive(Debug, Clone)]
pub struct PageInfo {
    /// One-based page number.
    pub page: u32,
    /// Page size the server used.
    pub page_size: u32,
    /// Total number of pages.
    pub total_pages: u32,
    /// Total number of items.
    pub total_items: u32,
}

/// A page of a list endpoint: the items plus optional pagination metadata.
#[derive(Debug, Clone)]
pub struct PaginatedResponse<T> {
    /// The items of this page.
    pub data: Vec<T>,
    /// Pagination metadata, when the server sent it.
    pub page_info: Option<PageInfo>,
}

/// A HATEOAS link of a response.
#[derive(Debug, Clone)]
pub struct ApiLink {
    /// Relation name.
    pub rel: String,
    /// Target reference.
    pub href: String,
    /// Media type, when given.
    pub link_type: Option<String>,
}

/// Which entity kinds an export covers.
#[derive(Debug, Clone)]
pub struct ExportOptions {
    /// Export service organizations.
    pub service_orgs: bool,
    /// Export customers.
    pub customers: bool,
    /// Export sites.
    pub sites: bool,
    /// Export devices.
    pub devices: bool,
    /// Export access groups.
    pub access_groups: bool,
    /// Export user roles.
    pub user_roles: bool,
    /// Export org unit custom properties.
    pub org_properties: bool,
    /// Export device custom properties.
    pub device_properties: bool,
    /// Export users.
    pub users: bool,
    /// Export device assets.
    pub device_assets: bool,
}

impl Default for ExportOptions {
    /// All kinds off.
    fn default() -> (r: Self)
        ensures
            !r.service_orgs && !r.customers && !r.sites && !r.devices,
            !r.access_groups && !r.user_roles && !r.org_properties,
            !r.device_properties && !r.users && !r.device_assets,
    {
        ExportOptions {
            service_orgs: false,
            customers: false,
            sites: false,
            devices: false,
            access_groups: false,
            user_roles: false,
            org_properties: false,
            device_properties: false,
            users: false,
            device_assets: false,
        }
    }
}

/// An export file format.
#[derive(Debug, Clone, Copy, PartialEq, Eq, Structural)]
pub enum ExportFormat {
    /// Comma-separated values.
    Csv,
    /// JSON.
    Json,
}

impl Default for ExportFormat {
    /// CSV is the default format.
    fn default() -> (r: Self)
        ensures
            r == ExportFormat::Csv,
    {
        ExportFormat::Csv
    }
}

/// A log line for the caller's activity stream.
#[derive(Debug, Clone)]
pub struct LogMessage {
    /// Severity label.
    pub level: String,
    /// The message text.
    pub message: String,
}

} // verus!
