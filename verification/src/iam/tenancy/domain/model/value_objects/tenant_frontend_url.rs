use crate::iam::tenancy::domain::error::DomainError;
use crate::text::{
    is_trimmed, lemma_trimmed_fixed, lemma_trimmed_is_trimmed, seq_starts_with, starts_with, trim,
    trimmed,
};
use vstd::prelude::*;
use vstd::std_specs::cmp::PartialEqSpecImpl;

verus! {

/// The frontend address of a tenant: trimmed, starting with `http://` or `https://`.
#[derive(Debug, Hash)]
pub struct TenantFrontendUrl {
    value: String,
}

/// What a stored frontend address satisfies.
pub open spec fn valid_frontend_url(s: Seq<char>) -> bool {
    is_trimmed(s) && (seq_starts_with(s, "http://"@) || seq_starts_with(s, "https://"@))
}

impl View for TenantFrontendUrl {
    type V = Seq<char>;

    closed spec fn view(&self) -> Seq<char> {
        self.value@
    }
}

impl TenantFrontendUrl {
    pub open spec fn wf(&self) -> bool {
        valid_frontend_url(self@)
    }

    /// Trims `value` and accepts it when it is an `http://` or `https://` address.
    pub fn new(value: String) -> (r: Result<TenantFrontendUrl, DomainError>)
        ensures
            r is Ok <==> (seq_starts_with(trimmed(value@), "http://"@) || seq_starts_with(
                trimmed(value@),
                "https://"@,
            )),
            r matches Ok(u) ==> u@ == trimmed(value@) && u.wf(),
            r matches Err(e) ==> e == DomainError::InvalidFrontendUrl,
    {
        let normalized = trim(value.as_str());
        if normalized.as_str().is_empty() {
            proof {
                reveal_strlit("http://");
                reveal_strlit("https://");
            }
            return Err(DomainError::InvalidFrontendUrl);
        }
        if !(starts_with(normalized.as_str(), "http://") || starts_with(
            normalized.as_str(),
            "https://",
        )) {
            return Err(DomainError::InvalidFrontendUrl);
        }
        proof {
            lemma_trimmed_is_trimmed(value@);
        }
        Ok(TenantFrontendUrl { value: normalized })
    }

    pub fn value(&self) -> (r: &str)
        ensures
            r@ == self@,
    {
        self.value.as_str()
    }
}

impl Clone for TenantFrontendUrl {
    fn clone(&self) -> (r: Self)
        ensures
            r@ == self@,
    {
        TenantFrontendUrl { value: self.value.clone() }
    }
}

impl PartialEq for TenantFrontendUrl {
    fn eq(&self, other: &Self) -> (r: bool) {
        self.value == other.value
    }
}

impl PartialEqSpecImpl for TenantFrontendUrl {
    open spec fn obeys_eq_spec() -> bool {
        true
    }

    open spec fn eq_spec(&self, other: &Self) -> bool {
        self@ == other@
    }
}

impl Eq for TenantFrontendUrl {

}

/// A stored address is accepted again unchanged.
pub proof fn lemma_frontend_url_round_trip(s: Seq<char>)
    requires
        valid_frontend_url(s),
    ensures
        trimmed(s) == s,
{
    lemma_trimmed_fixed(s);
}

} // verus!
