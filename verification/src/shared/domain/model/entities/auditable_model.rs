use vstd::prelude::*;

verus! {

/// Creation and last-update instants, in microseconds since the Unix epoch (UTC).
#[derive(Debug, Clone, Copy, PartialEq, Eq, Structural)]
pub struct AuditableModel {
    pub created_at: i64,
    pub updated_at: i64,
}

/// Calls `chrono::Utc::now` and reads its microseconds since the epoch. The value depends on
/// the clock, so nothing is stated of it.
#[verifier::external_body]
fn now_micros() -> i64 {
    chrono::Utc::now().timestamp_micros()
}

impl AuditableModel {
    /// A fresh audit record: both instants are the current time.
    pub fn new() -> (a: AuditableModel)
        ensures
            a.created_at == a.updated_at,
    {
        Self::at(now_micros())
    }

    /// An audit record made at `now`: both instants are `now`.
    pub fn at(now: i64) -> (a: AuditableModel)
        ensures
            a.created_at == now,
            a.updated_at == now,
    {
        AuditableModel { created_at: now, updated_at: now }
    }
}

} // verus!
