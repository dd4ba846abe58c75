//! Multi-tenant authentication service: tenancy domain, provisioning and shared rules.

pub mod iam;
pub mod provisioning;
pub mod shared;
pub mod text;
