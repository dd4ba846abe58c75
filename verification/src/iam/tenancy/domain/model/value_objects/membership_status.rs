use crate::iam::tenancy::domain::error::DomainError;
use crate::text::{
    all_ascii, ascii_lowercase, is_trimmed, is_white_space, lemma_trimmed_fixed, str_equal,
    to_lowercase, trim, trimmed, unicode_lowercase,
};
use vstd::prelude::*;

verus! {

/// Whether a membership is in force.
#[derive(Debug, Clone, Copy, PartialEq, Eq, Structural)]
pub enum MembershipStatus {
    Active,
    Inactive,
}

/// The stored text of a status.
pub open spec fn membership_status_text(s: MembershipStatus) -> Seq<char> {
    match s {
        MembershipStatus::Active => "active"@,
        MembershipStatus::Inactive => "inactive"@,
    }
}

/// The status a normalized text names.
pub open spec fn membership_status_from_text(s: Seq<char>) -> Result<MembershipStatus, DomainError> {
    if s == "active"@ {
        Ok(MembershipStatus::Active)
    } else if s == "inactive"@ {
        Ok(MembershipStatus::Inactive)
    } else {
        Err(DomainError::InvalidStatus)
    }
}

impl MembershipStatus {
    pub fn as_str(&self) -> (s: &'static str)
        ensures
            s@ == membership_status_text(*self),
    {
        match self {
            MembershipStatus::Active => "active",
            MembershipStatus::Inactive => "inactive",
        }
    }

    /// Reads a status from text that is already trimmed and lowercased.
    pub fn from_normalized(normalized: &str) -> (r: Result<MembershipStatus, DomainError>)
        ensures
            r == membership_status_from_text(normalized@),
    {
        if str_equal(normalized, "active") {
            Ok(MembershipStatus::Active)
        } else if str_equal(normalized, "inactive") {
            Ok(MembershipStatus::Inactive)
        } else {
            Err(DomainError::InvalidStatus)
        }
    }

    /// Reads a status, ignoring surrounding white space and letter case.
    pub fn from_str(value: &str) -> (r: Result<MembershipStatus, DomainError>)
        ensures
            r == membership_status_from_text(unicode_lowercase(trimmed(value@))),
            all_ascii(trimmed(value@)) ==> r == membership_status_from_text(
                ascii_lowercase(trimmed(value@)),
            ),
    {
        let trimmed_value = trim(value);
        let normalized = to_lowercase(trimmed_value.as_str());
        Self::from_normalized(normalized.as_str())
    }
}

impl std::str::FromStr for MembershipStatus {
    type Err = DomainError;

    fn from_str(value: &str) -> (r: Result<MembershipStatus, DomainError>)
        ensures
            r == membership_status_from_text(unicode_lowercase(trimmed(value@))),
            all_ascii(trimmed(value@)) ==> r == membership_status_from_text(
                ascii_lowercase(trimmed(value@)),
            ),
    {
        MembershipStatus::from_str(value)
    }
}

/// Reading the stored text of a status gives the status back.
pub proof fn lemma_membership_status_round_trip(s: MembershipStatus)
    ensures
        all_ascii(trimmed(membership_status_text(s))),
        membership_status_from_text(ascii_lowercase(trimmed(membership_status_text(s)))) == Ok::<
            MembershipStatus,
            DomainError,
        >(s),
{
    reveal_strlit("active");
    reveal_strlit("inactive");
    let t = membership_status_text(s);
    assert(!is_white_space(t[0]) && !is_white_space(t.last()));
    assert(is_trimmed(t));
    lemma_trimmed_fixed(t);
    assert(ascii_lowercase(t) =~= t);
}

} // verus!
