use crate::iam::tenancy::domain::{
    error::DomainError, model::value_objects::tenant_anon_key::TenantAnonKey,
};
use crate::text::{trimmed, utf8_len};
use vstd::prelude::*;

verus! {

/// May this user act in the tenant holding this anon key?
#[derive(Debug, Clone)]
pub struct ResolveTenantAccessQuery {
    pub user_id: u128,
    pub tenant_anon_key: TenantAnonKey,
}

impl ResolveTenantAccessQuery {
    pub fn new(user_id: u128, tenant_anon_key: String) -> (r: Result<
        ResolveTenantAccessQuery,
        DomainError,
    >)
        ensures
            r is Ok <==> utf8_len(trimmed(tenant_anon_key@)) >= 10,
            r matches Ok(q) ==> q.user_id == user_id && q.tenant_anon_key@ == trimmed(
                tenant_anon_key@,
            ) && q.tenant_anon_key.wf(),
            r matches Err(e) ==> e == DomainError::InvalidTenantAnonKey,
    {
        match TenantAnonKey::new(tenant_anon_key) {
            Ok(k) => Ok(ResolveTenantAccessQuery { user_id, tenant_anon_key: k }),
            Err(e) => Err(e),
        }
    }
}

} // verus!
