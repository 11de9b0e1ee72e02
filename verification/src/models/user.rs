//! User accounts.

use vstd::prelude::*;

verus! {

/// A user account; the login name is the natural key across systems.
#[derive(Debug, Clone)]
pub struct User {
    /// Numeric identifier.
    pub user_id: i64,
    /// Unique login name.
    pub login_name: String,
    /// First name.
    pub first_name: Option<String>,
    /// Last name.
    pub last_name: Option<String>,
    /// Full name.
    pub full_name: Option<String>,
    /// Email address.
    pub email: Option<String>,
    /// Free-text description.
    pub description: Option<String>,
    /// Whether the account is enabled.
    pub is_enabled: bool,
    /// Whether the account is LDAP-backed.
    pub is_ldap: bool,
    /// Whether the account is locked.
    pub is_locked: Option<bool>,
    /// Whether the account is API-only.
    pub api_only_user: bool,
    /// Whether the account is currently logged in.
    pub logged_in_user: bool,
    /// Whether the account is read-only.
    pub read_only: bool,
    /// Whether the account is a support user.
    pub support_user: bool,
    /// Whether two-factor auth is enabled.
    pub two_factor_enabled: bool,
    /// Current single-sign-on provider, when any.
    pub current_sso_provider: Option<String>,
    /// Access groups the user belongs to.
    pub access_group_ids: Vec<i64>,
    /// Roles assigned to the user.
    pub role_ids: Vec<i64>,
    /// Customer tree labels.
    pub customer_tree: Vec<String>,
    /// Creation timestamp text.
    pub created_on: Option<String>,
    /// Owning org unit id.
    pub org_unit_id: Option<i64>,
    /// Owning service org id.
    pub service_org_id: Option<i64>,
}

} // verus!
