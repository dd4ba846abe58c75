use crate::iam::tenancy::domain::model::value_objects::tenant_id::TenantId;
use vstd::prelude::*;

verus! {

/// What a successful tenant creation hands back; the secret key is shown only here.
#[derive(Debug)]
pub struct CreatedTenantSchemaResult {
    pub tenant_id: TenantId,
    pub schema_name: String,
    pub anon_key: String,
    pub secret_key: String,
}

/// What a successful key rotation hands back; the secret key is shown only here.
#[derive(Debug)]
pub struct RotatedTenantKeysResult {
    pub tenant_id: TenantId,
    pub anon_key: String,
    pub secret_key: String,
}

impl Clone for CreatedTenantSchemaResult {
    fn clone(&self) -> (r: Self)
        ensures
            r.tenant_id == self.tenant_id,
            r.schema_name@ == self.schema_name@,
            r.anon_key@ == self.anon_key@,
            r.secret_key@ == self.secret_key@,
    {
        CreatedTenantSchemaResult {
            tenant_id: self.tenant_id,
            schema_name: self.schema_name.clone(),
            anon_key: self.anon_key.clone(),
            secret_key: self.secret_key.clone(),
        }
    }
}

impl Clone for RotatedTenantKeysResult {
    fn clone(&self) -> (r: Self)
        ensures
            r.tenant_id == self.tenant_id,
            r.anon_key@ == self.anon_key@,
            r.secret_key@ == self.secret_key@,
    {
        RotatedTenantKeysResult {
            tenant_id: self.tenant_id,
            anon_key: self.anon_key.clone(),
            secret_key: self.secret_key.clone(),
        }
    }
}

} // verus!
