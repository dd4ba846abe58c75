use vstd::prelude::*;

verus! {

/// Body of a tenant creation request.
#[derive(Debug, Clone)]
pub struct CreateTenantSchemaResource {
    pub tenant_name: String,
    pub google_client_id: String,
    pub google_client_secret: String,
    pub frontend_url: String,
}

/// Body of a tenant creation response; the secret key is shown only here.
#[derive(Debug, Clone)]
pub struct CreateTenantSchemaResponseResource {
    pub tenant_id: String,
    pub schema_name: String,
    pub anon_key: String,
    pub secret_key: String,
}

} // verus!
