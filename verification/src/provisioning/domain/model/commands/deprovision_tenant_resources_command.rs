use crate::provisioning::domain::{
    error::DomainError,
    model::value_objects::resource_name::{
        empty_resource_name_text, resource_name_charset_text, valid_resource_name, ResourceName,
    },
};
use crate::text::trimmed;
use vstd::prelude::*;

verus! {

/// Request to remove a tenant's database.
#[derive(Debug)]
pub struct DeprovisionTenantResourcesCommand {
    pub tenant_id: String,
    pub database_name: ResourceName,
}

impl DeprovisionTenantResourcesCommand {
    pub fn new(tenant_id: String, database_name: String) -> (r: Result<
        DeprovisionTenantResourcesCommand,
        DomainError,
    >)
        ensures
            trimmed(database_name@).len() == 0 ==> (r matches Err(DomainError::ValidationError(m))
                && m@ == empty_resource_name_text()),
            trimmed(database_name@).len() > 0 && !valid_resource_name(database_name@) ==> (
            r matches Err(DomainError::ValidationError(m)) && m@ == resource_name_charset_text()),
            r is Ok <==> valid_resource_name(database_name@),
            r matches Ok(c) ==> c.tenant_id@ == tenant_id@ && c.database_name@ == database_name@,
    {
        match ResourceName::new(database_name) {
            Ok(n) => Ok(DeprovisionTenantResourcesCommand { tenant_id, database_name: n }),
            Err(e) => Err(e),
        }
    }
}

} // verus!
