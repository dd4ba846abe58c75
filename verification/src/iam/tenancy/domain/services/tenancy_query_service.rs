use crate::iam::tenancy::domain::model::value_objects::tenant_id::TenantId;
use vstd::prelude::*;

verus! {

/// The tenant and schema an anon key leads to.
#[derive(Debug, Clone)]
pub struct TenantSchemaContext {
    pub tenant_id: TenantId,
    pub schema_name: String,
}

/// The tenant, schema and OAuth client an anon key leads to.
#[derive(Debug, Clone)]
pub struct TenantOAuthConfigurationContext {
    pub tenant_id: TenantId,
    pub schema_name: String,
    pub google_client_id: String,
    pub google_client_secret: String,
}

} // verus!
