use crate::provisioning::domain::{
    error::DomainError,
    model::value_objects::resource_name::{
        empty_resource_name_text, resource_name_charset_text, valid_resource_name, ResourceName,
    },
};
use crate::text::trimmed;
use vstd::prelude::*;

verus! {

/// Request to create a tenant's database and its tables.
#[derive(Debug)]
pub struct ProvisionTenantResourcesCommand {
    pub tenant_id: String,
    pub database_name: ResourceName,
}

impl ProvisionTenantResourcesCommand {
    pub fn new(tenant_id: String, database_name: String) -> (r: Result<
        ProvisionTenantResourcesCommand,
        DomainError,
    >)
        ensures
            trimmed(database_name@).len() == 0 ==> (r matches Err(DomainError::ValidationError(m))
                && m@ == empty_resource_name_text()),
            trimmed(database_name@).len() > 0 && !valid_resource_name(database_name@) ==> (
            r matches Err(DomainError::ValidationError(m)) && m@ == resource_name_charset_text()),
            r is Ok <==> valid_resource_name(database_name@),
            r matches Ok(c) ==> c.tenant_id@ == tenant_id@ && c.database_name@ == database_name@,
    {
        match ResourceName::new(database_name) {
            Ok(n) => Ok(ProvisionTenantResourcesCommand { tenant_id, database_name: n }),
            Err(e) => Err(e),
        }
    }
}

} // verus!
