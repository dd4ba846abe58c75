use vstd::prelude::*;

verus! {

/// Body of a key rotation response; the secret key is shown only here.
#[derive(Debug, Clone)]
pub struct RotateTenantKeysResponseResource {
    pub tenant_id: String,
    pub anon_key: String,
    pub secret_key: String,
}

} // verus!
