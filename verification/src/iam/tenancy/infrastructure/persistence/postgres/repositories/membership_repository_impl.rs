//! The stored form of a membership and its conversion into the domain aggregate.

use crate::iam::tenancy::domain::{
    error::DomainError,
    model::{
        aggregates::membership::{Membership, MembershipView},
        value_objects::{
            membership_id::MembershipId,
            membership_role::{membership_role_from_text, MembershipRole},
            membership_status::{membership_status_from_text, MembershipStatus},
            tenant_id::TenantId,
        },
    },
};
use crate::shared::domain::model::entities::auditable_model::AuditableModel;
use crate::text::{trimmed, unicode_lowercase};
use vstd::prelude::*;

verus! {

/// One stored membership; instants are microseconds since the Unix epoch.
#[derive(Debug, Clone)]
pub struct MembershipRecord {
    pub id: u128,
    pub tenant_id: u128,
    pub user_id: u128,
    pub role: String,
    pub status: String,
    pub created_at: i64,
    pub updated_at: i64,
}

/// Rebuilds a membership from its row; checks run in the order id, tenant id, role, status.
pub fn membership_from_record(record: MembershipRecord) -> (r: Result<Membership, DomainError>)
    ensures
        ({
            let role = membership_role_from_text(unicode_lowercase(trimmed(record.role@)));
            let status = membership_status_from_text(unicode_lowercase(trimmed(record.status@)));
            if record.id == 0 || record.tenant_id == 0 {
                r matches Err(e) && e == DomainError::InvalidId
            } else if role is Err {
                r matches Err(e) && e == DomainError::InvalidRole
            } else if status is Err {
                r matches Err(e) && e == DomainError::InvalidStatus
            } else {
                r matches Ok(m) && m@ == (MembershipView {
                    id: record.id,
                    tenant_id: record.tenant_id,
                    user_id: record.user_id,
                    role: role->Ok_0,
                    status: status->Ok_0,
                    audit: AuditableModel {
                        created_at: record.created_at,
                        updated_at: record.updated_at,
                    },
                })
            }
        }),
{
    let id = match MembershipId::from_uuid(record.id) {
        Ok(v) => v,
        Err(e) => return Err(e),
    };
    let tenant_id = match TenantId::from_uuid(record.tenant_id) {
        Ok(v) => v,
        Err(e) => return Err(e),
    };
    let role = match MembershipRole::from_str(record.role.as_str()) {
        Ok(v) => v,
        Err(e) => return Err(e),
    };
    let status = match MembershipStatus::from_str(record.status.as_str()) {
        Ok(v) => v,
        Err(e) => return Err(e),
    };
    Ok(
        Membership::new(
            id,
            tenant_id,
            record.user_id,
            role,
            status,
            AuditableModel { created_at: record.created_at, updated_at: record.updated_at },
        ),
    )
}

} // verus!
