use crate::iam::tenancy::domain::error::DomainError;
use crate::shared::uuids::{is_random_uuid, lemma_random_uuid_not_nil, random_uuid_v4};
use vstd::prelude::*;

verus! {

/// Identifier of a membership: a non-nil UUID, held as its 128-bit value.
#[derive(Debug, Clone, Copy, PartialEq, Eq, Hash, Structural)]
pub struct MembershipId {
    value: u128,
}

impl View for MembershipId {
    type V = u128;

    closed spec fn view(&self) -> u128 {
        self.value
    }
}

impl MembershipId {
    pub open spec fn wf(&self) -> bool {
        self@ != 0
    }

    /// A fresh random (version 4) identifier.
    pub fn new() -> (id: MembershipId)
        ensures
            id.wf(),
            is_random_uuid(id@),
    {
        let bits = random_uuid_v4();
        proof {
            lemma_random_uuid_not_nil(bits);
        }
        MembershipId { value: bits }
    }

    /// Accepts any UUID but the nil one.
    pub fn from_uuid(value: u128) -> (r: Result<MembershipId, DomainError>)
        ensures
            r is Ok <==> value != 0,
            r matches Ok(id) ==> id@ == value,
            r matches Err(e) ==> e == DomainError::InvalidId,
    {
        if value == 0 {
            return Err(DomainError::InvalidId);
        }
        Ok(MembershipId { value })
    }

    pub fn value(&self) -> (v: u128)
        ensures
            v == self@,
    {
        self.value
    }
}

} // verus!
