use vstd::prelude::*;

verus! {

/// Body of a tenant deletion response.
#[derive(Debug, Clone)]
pub struct DeleteTenantSchemaResponseResource {
    pub message: String,
}

} // verus!
