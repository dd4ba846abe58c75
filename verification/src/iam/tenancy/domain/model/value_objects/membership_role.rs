use crate::iam::tenancy::domain::error::DomainError;
use crate::text::{
    all_ascii, ascii_lowercase, is_trimmed, is_white_space, lemma_trimmed_fixed, str_equal,
    to_lowercase, trim, trimmed, unicode_lowercase,
};
use vstd::prelude::*;

verus! {

/// The role of a user inside a tenant.
#[derive(Debug, Clone, Copy, PartialEq, Eq, Structural)]
pub enum MembershipRole {
    Admin,
    User,
}

/// The stored text of a role.
pub open spec fn membership_role_text(s: MembershipRole) -> Seq<char> {
    match s {
        MembershipRole::Admin => "admin"@,
        MembershipRole::User => "user"@,
    }
}

/// The role a normalized text names.
pub open spec fn membership_role_from_text(s: Seq<char>) -> Result<MembershipRole, DomainError> {
    if s == "admin"@ {
        Ok(MembershipRole::Admin)
    } else if s == "user"@ {
        Ok(MembershipRole::User)
    } else {
        Err(DomainError::InvalidRole)
    }
}

impl MembershipRole {
    pub fn as_str(&self) -> (s: &'static str)
        ensures
            s@ == membership_role_text(*self),
    {
        match self {
            MembershipRole::Admin => "admin",
            MembershipRole::User => "user",
        }
    }

    /// Reads a role from text that is already trimmed and lowercased.
    pub fn from_normalized(normalized: &str) -> (r: Result<MembershipRole, DomainError>)
        ensures
            r == membership_role_from_text(normalized@),
    {
        if str_equal(normalized, "admin") {
            Ok(MembershipRole::Admin)
        } else if str_equal(normalized, "user") {
            Ok(MembershipRole::User)
        } else {
            Err(DomainError::InvalidRole)
        }
    }

    /// Reads a role, ignoring surrounding white space and letter case.
    pub fn from_str(value: &str) -> (r: Result<MembershipRole, DomainError>)
        ensures
            r == membership_role_from_text(unicode_lowercase(trimmed(value@))),
            all_ascii(trimmed(value@)) ==> r == membership_role_from_text(
                ascii_lowercase(trimmed(value@)),
            ),
    {
        let trimmed_value = trim(value);
        let normalized = to_lowercase(trimmed_value.as_str());
        Self::from_normalized(normalized.as_str())
    }
}

impl std::str::FromStr for MembershipRole {
    type Err = DomainError;

    fn from_str(value: &str) -> (r: Result<MembershipRole, DomainError>)
        ensures
            r == membership_role_from_text(unicode_lowercase(trimmed(value@))),
            all_ascii(trimmed(value@)) ==> r == membership_role_from_text(
                ascii_lowercase(trimmed(value@)),
            ),
    {
        MembershipRole::from_str(value)
    }
}

/// Reading the stored text of a role gives the role back.
pub proof fn lemma_membership_role_round_trip(s: MembershipRole)
    ensures
        all_ascii(trimmed(membership_role_text(s))),
        membership_role_from_text(ascii_lowercase(trimmed(membership_role_text(s)))) == Ok::<
            MembershipRole,
            DomainError,
        >(s),
{
    reveal_strlit("admin");
    reveal_strlit("user");
    let t = membership_role_text(s);
    assert(!is_white_space(t[0]) && !is_white_space(t.last()));
    assert(is_trimmed(t));
    lemma_trimmed_fixed(t);
    assert(ascii_lowercase(t) =~= t);
}

} // verus!
