//! Customer and site org units.
//!
//! A site's parent link arrives under several historically inconsistent
//! field names; every alias is kept and [`Site::parent_link`] resolves them
//! in priority order.

use vstd::prelude::*;

verus! {

/// A customer org unit.
#[derive(Debug, Clone)]
pub struct Customer {
    /// Numeric identifier.
    pub customer_id: i64,
    /// Display name; the natural key for matching across systems.
    pub customer_name: String,
    /// Org unit kind label.
    pub org_unit_type: Option<String>,
    /// Parent org unit id.
    pub parent_id: Option<i64>,
    /// External reference.
    pub external_id: Option<String>,
    /// Second external reference.
    pub external_id2: Option<String>,
    /// Contact first name.
    pub contact_first_name: Option<String>,
    /// Contact last name.
    pub contact_last_name: Option<String>,
    /// Contact email.
    pub contact_email: Option<String>,
    /// Contact phone.
    pub contact_phone: Option<String>,
    /// Contact phone extension.
    pub contact_phone_ext: Option<String>,
    /// Main phone.
    pub phone: Option<String>,
    /// Contact title.
    pub contact_title: Option<String>,
    /// Contact department.
    pub contact_department: Option<String>,
    /// County.
    pub county: Option<String>,
    /// Street line one.
    pub street1: Option<String>,
    /// Street line two.
    pub street2: Option<String>,
    /// City.
    pub city: Option<String>,
    /// State or province.
    pub state_prov: Option<String>,
    /// Country.
    pub country: Option<String>,
    /// Postal code.
    pub postal_code: Option<String>,
    /// Whether the unit is system-owned.
    pub is_system: Option<bool>,
    /// Whether the unit is a service org.
    pub is_service_org: Option<bool>,
}

/// A site org unit.
#[derive(Debug, Clone)]
pub struct Site {
    /// Numeric identifier.
    pub site_id: i64,
    /// Display name.
    pub site_name: String,
    /// Org unit kind label.
    pub org_unit_type: Option<String>,
    /// Parent org unit id.
    pub parent_id: Option<i64>,
    /// External reference.
    pub external_id: Option<String>,
    /// Second external reference.
    pub external_id2: Option<String>,
    /// Contact first name.
    pub contact_first_name: Option<String>,
    /// Contact last name.
    pub contact_last_name: Option<String>,
    /// Contact email.
    pub contact_email: Option<String>,
    /// Contact phone.
    pub contact_phone: Option<String>,
    /// Contact phone extension.
    pub contact_phone_ext: Option<String>,
    /// Main phone.
    pub phone: Option<String>,
    /// Contact title.
    pub contact_title: Option<String>,
    /// Contact department.
    pub contact_department: Option<String>,
    /// County.
    pub county: Option<String>,
    /// Street line one.
    pub street1: Option<String>,
    /// Street line two.
    pub street2: Option<String>,
    /// City.
    pub city: Option<String>,
    /// State or province.
    pub state_prov: Option<String>,
    /// Country.
    pub country: Option<String>,
    /// Postal code.
    pub postal_code: Option<String>,
    /// Whether the unit is system-owned.
    pub is_system: Option<bool>,
    /// Whether the unit is a service org.
    pub is_service_org: Option<bool>,
    /// Parent link alias: customer id, camel-cased on the wire.
    pub customer_id: Option<i64>,
    /// Parent link alias: customer id, lower-cased on the wire.
    pub customerid: Option<i64>,
    /// Parent link alias: org unit id.
    pub org_unit_id: Option<i64>,
    /// Parent link alias: service org id.
    pub service_org_id: Option<i64>,
    /// Parent link alias: service org id, lower-cased on the wire.
    pub service_orgid: Option<i64>,
}

/// The parent link of a site: the first of `parent_id`, `customer_id`,
/// `customerid` that is present.  Every alias counts as an equally valid
/// parent reference.
pub open spec fn spec_site_parent(s: Site) -> Option<i64> {
    if s.parent_id is Some {
        s.parent_id
    } else if s.customer_id is Some {
        s.customer_id
    } else {
        s.customerid
    }
}

impl Site {
    /// Resolves the parent link through the known aliases, in priority
    /// order.
    pub fn parent_link(&self) -> (r: Option<i64>)
        ensures
            r == spec_site_parent(*self),
    {
        match self.parent_id {
            Some(p) => Some(p),
            None => match self.customer_id {
                Some(c) => Some(c),
                None => self.customerid,
            },
        }
    }
}

} // verus!
