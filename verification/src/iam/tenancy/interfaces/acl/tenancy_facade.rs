use vstd::prelude::*;

verus! {

/// What other contexts learn of the tenant behind an anon key.
#[derive(Debug, Clone)]
pub struct TenantSchemaContextAcl {
    pub tenant_id: u128,
    pub schema_name: String,
}

/// What other contexts learn of a tenant's Google OAuth client.
#[derive(Debug, Clone)]
pub struct TenantOAuthConfigurationContextAcl {
    pub tenant_id: u128,
    pub schema_name: String,
    pub google_client_id: String,
    pub google_client_secret: String,
    pub google_redirect_uri: String,
}

} // verus!
