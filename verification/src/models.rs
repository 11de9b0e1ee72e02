//! The data model: org units, users, roles, access groups, properties,
//! devices, and the wire-level envelope types.

pub mod access_group;
pub mod auth;
pub mod common;
pub mod customer;
pub mod device;
pub mod properties;
pub mod service_org;
pub mod user;
pub mod user_role;
