use crate::iam::tenancy::domain::{
    error::DomainError, model::value_objects::tenant_anon_key::TenantAnonKey,
};
use crate::text::{trimmed, utf8_len};
use vstd::prelude::*;

verus! {

/// Which OAuth client belongs to the tenant holding this anon key?
#[derive(Debug, Clone)]
pub struct ResolveTenantOAuthConfigurationQuery {
    pub tenant_anon_key: TenantAnonKey,
}

impl ResolveTenantOAuthConfigurationQuery {
    pub fn new(tenant_anon_key: String) -> (r: Result<ResolveTenantOAuthConfigurationQuery, DomainError>)
        ensures
            r is Ok <==> utf8_len(trimmed(tenant_anon_key@)) >= 10,
            r matches Ok(q) ==> q.tenant_anon_key@ == trimmed(tenant_anon_key@)
                && q.tenant_anon_key.wf(),
            r matches Err(e) ==> e == DomainError::InvalidTenantAnonKey,
    {
        match TenantAnonKey::new(tenant_anon_key) {
            Ok(k) => Ok(ResolveTenantOAuthConfigurationQuery { tenant_anon_key: k }),
            Err(e) => Err(e),
        }
    }
}

} // verus!
