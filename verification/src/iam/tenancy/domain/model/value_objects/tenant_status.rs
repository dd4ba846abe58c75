use crate::iam::tenancy::domain::error::DomainError;
use crate::text::{
    all_ascii, ascii_lowercase, is_trimmed, is_white_space, lemma_trimmed_fixed, str_equal,
    to_lowercase, trim, trimmed, unicode_lowercase,
};
use vstd::prelude::*;

verus! {

/// Whether a tenant may be used.
#[derive(Debug, Clone, Copy, PartialEq, Eq, Structural)]
pub enum TenantStatus {
    Active,
    Inactive,
}

/// The stored text of a status.
pub open spec fn tenant_status_text(s: TenantStatus) -> Seq<char> {
    match s {
        TenantStatus::Active => "active"@,
        TenantStatus::Inactive => "inactive"@,
    }
}

/// The status a normalized text names.
pub open spec fn tenant_status_from_text(s: Seq<char>) -> Result<TenantStatus, DomainError> {
    if s == "active"@ {
        Ok(TenantStatus::Active)
    } else if s == "inactive"@ {
        Ok(TenantStatus::Inactive)
    } else {
        Err(DomainError::InvalidStatus)
    }
}

impl TenantStatus {
    pub fn as_str(&self) -> (s: &'static str)
        ensures
            s@ == tenant_status_text(*self),
    {
        match self {
            TenantStatus::Active => "active",
            TenantStatus::Inactive => "inactive",
        }
    }

    /// Reads a status from text that is already trimmed and lowercased.
    pub fn from_normalized(normalized: &str) -> (r: Result<TenantStatus, DomainError>)
        ensures
            r == tenant_status_from_text(normalized@),
    {
        if str_equal(normalized, "active") {
            Ok(TenantStatus::Active)
        } else if str_equal(normalized, "inactive") {
            Ok(TenantStatus::Inactive)
        } else {
            Err(DomainError::InvalidStatus)
        }
    }

    /// Reads a status, ignoring surrounding white space and letter case.
    pub fn from_str(value: &str) -> (r: Result<TenantStatus, DomainError>)
        ensures
            r == tenant_status_from_text(unicode_lowercase(trimmed(value@))),
            all_ascii(trimmed(value@)) ==> r == tenant_status_from_text(
                ascii_lowercase(trimmed(value@)),
            ),
    {
        let trimmed_value = trim(value);
        let normalized = to_lowercase(trimmed_value.as_str());
        Self::from_normalized(normalized.as_str())
    }
}

impl std::str::FromStr for TenantStatus {
    type Err = DomainError;

    fn from_str(value: &str) -> (r: Result<TenantStatus, DomainError>)
        ensures
            r == tenant_status_from_text(unicode_lowercase(trimmed(value@))),
            all_ascii(trimmed(value@)) ==> r == tenant_status_from_text(
                ascii_lowercase(trimmed(value@)),
            ),
    {
        TenantStatus::from_str(value)
    }
}

/// Reading the stored text of a status gives the status back.
pub proof fn lemma_tenant_status_round_trip(s: TenantStatus)
    ensures
        all_ascii(trimmed(tenant_status_text(s))),
        tenant_status_from_text(ascii_lowercase(trimmed(tenant_status_text(s)))) == Ok::<
            TenantStatus,
            DomainError,
        >(s),
{
    reveal_strlit("active");
    reveal_strlit("inactive");
    let t = tenant_status_text(s);
    assert(!is_white_space(t[0]) && !is_white_space(t.last()));
    assert(is_trimmed(t));
    lemma_trimmed_fixed(t);
    assert(ascii_lowercase(t) =~= t);
}

} // verus!
