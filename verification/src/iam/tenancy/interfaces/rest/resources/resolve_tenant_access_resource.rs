use vstd::prelude::*;

verus! {

/// Query of a tenant access resolution.
#[derive(Debug, Clone)]
pub struct ResolveTenantAccessResource {
    pub tenant_anon_key: String,
}

/// Answer of a tenant access resolution.
#[derive(Debug, Clone)]
pub struct ResolveTenantAccessResponseResource {
    pub tenant_id: String,
    pub role: String,
}

} // verus!
