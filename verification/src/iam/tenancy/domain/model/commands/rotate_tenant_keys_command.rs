use crate::iam::tenancy::domain::{error::DomainError, model::value_objects::tenant_id::TenantId};
use vstd::prelude::*;

verus! {

/// Request to replace the keys of a tenant.
#[derive(Debug, Clone)]
pub struct RotateTenantKeysCommand {
    pub tenant_id: TenantId,
}

impl RotateTenantKeysCommand {
    pub fn new(tenant_id: u128) -> (r: Result<RotateTenantKeysCommand, DomainError>)
        ensures
            r is Ok <==> tenant_id != 0,
            r matches Ok(c) ==> c.tenant_id@ == tenant_id,
            r matches Err(e) ==> e == DomainError::InvalidId,
    {
        match TenantId::from_uuid(tenant_id) {
            Ok(id) => Ok(RotateTenantKeysCommand { tenant_id: id }),
            Err(e) => Err(e),
        }
    }
}

} // verus!
