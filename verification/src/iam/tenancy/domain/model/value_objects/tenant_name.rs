use crate::iam::tenancy::domain::error::DomainError;
use crate::text::{byte_len, is_trimmed, lemma_trimmed_fixed, lemma_trimmed_is_trimmed, trim, trimmed, utf8_len};
use vstd::prelude::*;
use vstd::std_specs::cmp::PartialEqSpecImpl;

verus! {

/// A tenant's display name: trimmed, at least two bytes long.
#[derive(Debug)]
pub struct TenantName {
    value: String,
}

/// What a stored tenant name satisfies.
pub open spec fn valid_tenant_name(s: Seq<char>) -> bool {
    is_trimmed(s) && utf8_len(s) >= 2
}

impl View for TenantName {
    type V = Seq<char>;

    closed spec fn view(&self) -> Seq<char> {
        self.value@
    }
}

impl TenantName {
    pub open spec fn wf(&self) -> bool {
        valid_tenant_name(self@)
    }

    /// Trims `value` and accepts it when at least two bytes remain.
    pub fn new(value: String) -> (r: Result<TenantName, DomainError>)
        ensures
            r is Ok <==> utf8_len(trimmed(value@)) >= 2,
            r matches Ok(n) ==> n@ == trimmed(value@) && n.wf(),
            r matches Err(e) ==> e == DomainError::InvalidTenantName,
    {
        let normalized = trim(value.as_str());
        if byte_len(normalized.as_str()) < 2 {
            return Err(DomainError::InvalidTenantName);
        }
        proof {
            lemma_trimmed_is_trimmed(value@);
        }
        Ok(TenantName { value: normalized })
    }

    pub fn value(&self) -> (r: &str)
        ensures
            r@ == self@,
    {
        self.value.as_str()
    }
}

impl Clone for TenantName {
    fn clone(&self) -> (r: Self)
        ensures
            r@ == self@,
    {
        TenantName { value: self.value.clone() }
    }
}

impl PartialEq for TenantName {
    fn eq(&self, other: &Self) -> (r: bool) {
        self.value == other.value
    }
}

impl PartialEqSpecImpl for TenantName {
    open spec fn obeys_eq_spec() -> bool {
        true
    }

    open spec fn eq_spec(&self, other: &Self) -> bool {
        self@ == other@
    }
}

impl Eq for TenantName {

}

/// A stored name is accepted again unchanged.
pub proof fn lemma_tenant_name_round_trip(s: Seq<char>)
    requires
        valid_tenant_name(s),
    ensures
        trimmed(s) == s,
        utf8_len(trimmed(s)) >= 2,
{
    lemma_trimmed_fixed(s);
}

} // verus!
