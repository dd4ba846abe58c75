use vstd::prelude::*;

verus! {

/// A user's access to a tenant was resolved; `occurred_on` is in microseconds since the
/// Unix epoch (UTC).
#[derive(Debug, Clone, Copy)]
pub struct TenantAccessResolvedEvent {
    pub user_id: u128,
    pub tenant_id: u128,
    pub occurred_on: i64,
}

} // verus!
