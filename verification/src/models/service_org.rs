//! Service organization org units.

use vstd::prelude::*;

verus! {

/// A service organization: the top-level tenant boundary.
#[derive(Debug, Clone)]
pub struct ServiceOrg {
    /// Numeric identifier.
    pub so_id: i64,
    /// Display name.
    pub so_name: String,
    /// Org unit kind label.
    pub org_unit_type: Option<String>,
    /// Parent org unit id.
    pub parent_id: Option<i64>,
    /// External reference.
    pub external_id: Option<String>,
    /// Second external reference.
    pub external_id2: Option<String>,
    /// Contact first name.
    pub contact_first_name: Option<String>,
    /// Contact last name.
    pub contact_last_name: Option<String>,
    /// Contact email.
    pub contact_email: Option<String>,
    /// Contact phone.
    pub contact_phone: Option<String>,
    /// Contact phone extension.
    pub contact_phone_ext: Option<String>,
    /// Main phone.
    pub phone: Option<String>,
    /// Contact title.
    pub contact_title: Option<String>,
    /// Contact department.
    pub contact_department: Option<String>,
    /// County.
    pub county: Option<String>,
    /// Internal label.
    pub internal_label: Option<String>,
    /// Street line one.
    pub street1: Option<String>,
    /// Street line two.
    pub street2: Option<String>,
    /// City.
    pub city: Option<String>,
    /// State or province.
    pub state_prov: Option<String>,
    /// Country.
    pub country: Option<String>,
    /// Postal code.
    pub postal_code: Option<String>,
    /// Whether the unit is system-owned.
    pub is_system: Option<bool>,
    /// Whether the unit is a service org.
    pub is_service_org: Option<bool>,
}

} // verus!
