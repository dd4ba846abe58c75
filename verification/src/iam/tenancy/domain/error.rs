use vstd::prelude::*;
use vstd::string::*;

verus! {

/// Failures of the tenancy domain.
#[derive(Debug, Clone)]
pub enum DomainError {
    InvalidTenantAnonKey,
    InvalidTenantName,
    InvalidRole,
    InvalidStatus,
    InvalidId,
    InvalidFrontendUrl,
    InternalError(String),
}

impl DomainError {
    /// The human-readable text of the error.
    pub open spec fn text(&self) -> Seq<char> {
        match self {
            DomainError::InvalidTenantAnonKey => "Invalid tenant anon key"@,
            DomainError::InvalidTenantName => "Invalid tenant name"@,
            DomainError::InvalidRole => "Invalid role"@,
            DomainError::InvalidStatus => "Invalid status"@,
            DomainError::InvalidId => "Invalid id"@,
            DomainError::InvalidFrontendUrl => "Invalid frontend url"@,
            DomainError::InternalError(m) => "Internal error: "@ + m@,
        }
    }

    /// The human-readable text of the error.
    pub fn message(&self) -> (m: String)
        ensures
            m@ == self.text(),
    {
        match self {
            DomainError::InvalidTenantAnonKey => String::from_str("Invalid tenant anon key"),
            DomainError::InvalidTenantName => String::from_str("Invalid tenant name"),
            DomainError::InvalidRole => String::from_str("Invalid role"),
            DomainError::InvalidStatus => String::from_str("Invalid status"),
            DomainError::InvalidId => String::from_str("Invalid id"),
            DomainError::InvalidFrontendUrl => String::from_str("Invalid frontend url"),
            DomainError::InternalError(m) => String::from_str("Internal error: ").concat(
                m.as_str(),
            ),
        }
    }

    /// An internal error carrying `message`.
    pub fn internal(message: &str) -> (e: DomainError)
        ensures
            e matches DomainError::InternalError(m) && m@ == message@,
    {
        DomainError::InternalError(String::from_str(message))
    }
}

} // verus!
