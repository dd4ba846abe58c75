use vstd::prelude::*;
use vstd::string::*;

verus! {

/// Failures of provisioning.
#[derive(Debug, Clone)]
pub enum DomainError {
    ValidationError(String),
    InfrastructureError(String),
}

impl DomainError {
    /// The human-readable text of the error.
    pub open spec fn text(&self) -> Seq<char> {
        match self {
            DomainError::ValidationError(m) => "Validation error: "@ + m@,
            DomainError::InfrastructureError(m) => "Infrastructure error: "@ + m@,
        }
    }

    /// The human-readable text of the error.
    pub fn message(&self) -> (m: String)
        ensures
            m@ == self.text(),
    {
        match self {
            DomainError::ValidationError(m) => String::from_str("Validation error: ").concat(
                m.as_str(),
            ),
            DomainError::InfrastructureError(m) => String::from_str(
                "Infrastructure error: ",
            ).concat(m.as_str()),
        }
    }
}

} // verus!
