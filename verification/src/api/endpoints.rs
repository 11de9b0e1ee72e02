//! REST endpoint paths and pagination query parameters.

use crate::text::{i64_to_string, spec_int_dec};
use vstd::prelude::*;

verus! {

/// The authentication endpoint.
pub const AUTH_AUTHENTICATE: &'static str = "/api/auth/authenticate";

/// The token refresh endpoint.
pub const AUTH_REFRESH: &'static str = "/api/auth/refresh";

/// The token validation endpoint.
pub const AUTH_VALIDATE: &'static str = "/api/auth/validate";

/// The server version endpoint.
pub const SERVER_INFO: &'static str = "/api/server-info";

/// The health check endpoint.
pub const HEALTH: &'static str = "/api/health";

/// The service organization listing endpoint.
pub const SERVICE_ORGS: &'static str = "/api/service-orgs";

/// The customer listing endpoint.
pub const CUSTOMERS: &'static str = "/api/customers";

/// The site listing endpoint.
pub const SITES: &'static str = "/api/sites";

/// The device listing endpoint.
pub const DEVICES: &'static str = "/api/devices";

/// The org unit listing endpoint.
pub const ORG_UNITS: &'static str = "/api/org-units";

/// The user listing endpoint.
pub const USERS: &'static str = "/api/users";

/// The custom property value endpoint.
pub const CUSTOM_PROPERTIES_VALUES: &'static str = "/api/custom-properties/values";

fn id_path(prefix: &str, id: i64, suffix: &str) -> (r: String)
    ensures
        r@ == prefix@ + spec_int_dec(id as int) + suffix@,
{
    let mut s: String = prefix.to_owned();
    let num = i64_to_string(id);
    s.append(num.as_str());
    s.append(suffix);
    s
}

/// Path for one service org.
pub fn service_org_by_id(so_id: i64) -> (r: String)
    ensures
        r@ == "/api/service-orgs/"@ + spec_int_dec(so_id as int),
{
    let r = id_path("/api/service-orgs/", so_id, "");
    proof {
        reveal_strlit("");
        assert(r@ =~= "/api/service-orgs/"@ + spec_int_dec(so_id as int));
    }
    r
}

/// Path for the customers under a service org.
pub fn service_org_customers(so_id: i64) -> (r: String)
    ensures
        r@ == "/api/service-orgs/"@ + spec_int_dec(so_id as int) + "/customers"@,
{
    id_path("/api/service-orgs/", so_id, "/customers")
}

/// Path for the sites under a service org; the API only offers the global
/// site listing, so the org id does not appear in the path.
pub fn service_org_sites(_so_id: i64) -> (r: String)
    ensures
        r@ == "/api/sites"@,
{
    let r: String = "/api/sites".to_owned();
    r
}

/// Path for listing an org unit's access groups.
pub fn org_unit_access_groups(org_unit_id: i64) -> (r: String)
    ensures
        r@ == "/api/org-units/"@ + spec_int_dec(org_unit_id as int) + "/access-groups"@,
{
    id_path("/api/org-units/", org_unit_id, "/access-groups")
}

/// Path for creating an org-unit-typed access group.
pub fn org_unit_access_groups_create(org_unit_id: i64) -> (r: String)
    ensures
        r@ == "/api/org-units/"@ + spec_int_dec(org_unit_id as int) + "/org-unit-access-groups"@,
{
    id_path("/api/org-units/", org_unit_id, "/org-unit-access-groups")
}

/// Path for creating a device-typed access group.
pub fn device_access_groups_create(org_unit_id: i64) -> (r: String)
    ensures
        r@ == "/api/org-units/"@ + spec_int_dec(org_unit_id as int) + "/device-access-groups"@,
{
    id_path("/api/org-units/", org_unit_id, "/device-access-groups")
}

/// Path for an org unit's user roles.
pub fn org_unit_user_roles(org_unit_id: i64) -> (r: String)
    ensures
        r@ == "/api/org-units/"@ + spec_int_dec(org_unit_id as int) + "/user-roles"@,
{
    id_path("/api/org-units/", org_unit_id, "/user-roles")
}

/// Path for an org unit's custom properties.
pub fn org_unit_custom_properties(org_unit_id: i64) -> (r: String)
    ensures
        r@ == "/api/org-units/"@ + spec_int_dec(org_unit_id as int) + "/custom-properties"@,
{
    id_path("/api/org-units/", org_unit_id, "/custom-properties")
}

/// Path for an org unit's users.
pub fn org_unit_users(org_unit_id: i64) -> (r: String)
    ensures
        r@ == "/api/org-units/"@ + spec_int_dec(org_unit_id as int) + "/users"@,
{
    id_path("/api/org-units/", org_unit_id, "/users")
}

/// Path for an org unit's devices.
pub fn org_unit_devices(org_unit_id: i64) -> (r: String)
    ensures
        r@ == "/api/org-units/"@ + spec_int_dec(org_unit_id as int) + "/devices"@,
{
    id_path("/api/org-units/", org_unit_id, "/devices")
}

/// Path for one device.
pub fn device_by_id(device_id: i64) -> (r: String)
    ensures
        r@ == "/api/devices/"@ + spec_int_dec(device_id as int),
{
    let r = id_path("/api/devices/", device_id, "");
    proof {
        reveal_strlit("");
        assert(r@ =~= "/api/devices/"@ + spec_int_dec(device_id as int));
    }
    r
}

/// Path for a device's custom properties.
pub fn device_custom_properties(device_id: i64) -> (r: String)
    ensures
        r@ == "/api/devices/"@ + spec_int_dec(device_id as int) + "/custom-properties"@,
{
    id_path("/api/devices/", device_id, "/custom-properties")
}

/// Path for a device's assets.
pub fn device_assets(device_id: i64) -> (r: String)
    ensures
        r@ == "/api/devices/"@ + spec_int_dec(device_id as int) + "/assets"@,
{
    id_path("/api/devices/", device_id, "/assets")
}

/// Pagination query parameters for list endpoints.
pub struct PaginationParams {
    /// One-based page number.
    pub page: Option<u32>,
    /// Requested page size.
    pub page_size: Option<u32>,
    /// Field to sort by.
    pub sort_by: Option<String>,
    /// Sort direction.
    pub sort_order: Option<String>,
}

impl PaginationParams {
    /// Parameters with nothing set.
    pub fn new() -> (r: Self)
        ensures
            r.page is None,
            r.page_size is None,
            r.sort_by is None,
            r.sort_order is None,
    {
        PaginationParams { page: None, page_size: None, sort_by: None, sort_order: None }
    }

    /// Sets the page number.
    pub fn page(self, page: u32) -> (r: Self)
        ensures
            r.page == Some(page),
            r.page_size == self.page_size,
            r.sort_by == self.sort_by,
            r.sort_order == self.sort_order,
    {
        PaginationParams { page: Some(page), ..self }
    }

    /// Sets the page size.
    pub fn page_size(self, size: u32) -> (r: Self)
        ensures
            r.page_size == Some(size),
            r.page == self.page,
            r.sort_by == self.sort_by,
            r.sort_order == self.sort_order,
    {
        PaginationParams { page_size: Some(size), ..self }
    }
}

} // verus!
