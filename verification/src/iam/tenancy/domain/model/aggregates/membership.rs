use crate::iam::tenancy::domain::model::value_objects::{
    membership_id::MembershipId, membership_role::MembershipRole,
    membership_status::MembershipStatus, tenant_id::TenantId,
};
use crate::shared::domain::model::entities::auditable_model::AuditableModel;
use vstd::prelude::*;

verus! {

/// A user's membership in a tenant.
#[derive(Debug, Clone, Copy)]
pub struct Membership {
    id: MembershipId,
    tenant_id: TenantId,
    user_id: u128,
    role: MembershipRole,
    status: MembershipStatus,
    audit: AuditableModel,
}

/// Abstract contents of a membership.
pub struct MembershipView {
    pub id: u128,
    pub tenant_id: u128,
    pub user_id: u128,
    pub role: MembershipRole,
    pub status: MembershipStatus,
    pub audit: AuditableModel,
}

impl View for Membership {
    type V = MembershipView;

    closed spec fn view(&self) -> MembershipView {
        MembershipView {
            id: self.id@,
            tenant_id: self.tenant_id@,
            user_id: self.user_id,
            role: self.role,
            status: self.status,
            audit: self.audit,
        }
    }
}

impl Membership {
    pub fn new(
        id: MembershipId,
        tenant_id: TenantId,
        user_id: u128,
        role: MembershipRole,
        status: MembershipStatus,
        audit: AuditableModel,
    ) -> (m: Membership)
        ensures
            m@ == (MembershipView {
                id: id@,
                tenant_id: tenant_id@,
                user_id,
                role,
                status,
                audit,
            }),
    {
        Membership { id, tenant_id, user_id, role, status, audit }
    }

    pub fn id(&self) -> (r: MembershipId)
        ensures
            r@ == self@.id,
    {
        self.id
    }

    pub fn tenant_id(&self) -> (r: TenantId)
        ensures
            r@ == self@.tenant_id,
    {
        self.tenant_id
    }

    pub fn user_id(&self) -> (r: u128)
        ensures
            r == self@.user_id,
    {
        self.user_id
    }

    pub fn role(&self) -> (r: &MembershipRole)
        ensures
            *r == self@.role,
    {
        &self.role
    }

    pub fn status(&self) -> (r: &MembershipStatus)
        ensures
            *r == self@.status,
    {
        &self.status
    }

    pub fn audit(&self) -> (r: &AuditableModel)
        ensures
            *r == self@.audit,
    {
        &self.audit
    }
}

} // verus!
