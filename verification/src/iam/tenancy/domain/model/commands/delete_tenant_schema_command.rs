use crate::iam::tenancy::domain::{error::DomainError, model::value_objects::tenant_id::TenantId};
use vstd::prelude::*;

verus! {

/// Request to delete a tenant and its schema.
#[derive(Debug, Clone)]
pub struct DeleteTenantSchemaCommand {
    pub tenant_id: TenantId,
}

impl DeleteTenantSchemaCommand {
    pub fn new(tenant_id: u128) -> (r: Result<DeleteTenantSchemaCommand, DomainError>)
        ensures
            r is Ok <==> tenant_id != 0,
            r matches Ok(c) ==> c.tenant_id@ == tenant_id,
            r matches Err(e) ==> e == DomainError::InvalidId,
    {
        match TenantId::from_uuid(tenant_id) {
            Ok(id) => Ok(DeleteTenantSchemaCommand { tenant_id: id }),
            Err(e) => Err(e),
        }
    }
}

} // verus!
