use crate::iam::tenancy::domain::error::DomainError;
use crate::text::{byte_len, is_trimmed, lemma_trimmed_fixed, lemma_trimmed_is_trimmed, trim, trimmed, utf8_len};
use vstd::prelude::*;
use vstd::std_specs::cmp::PartialEqSpecImpl;

verus! {

/// A tenant's public (anonymous) key: trimmed, at least ten bytes long.
#[derive(Debug)]
pub struct TenantAnonKey {
    value: String,
}

/// What a stored anon key satisfies.
pub open spec fn valid_tenant_anon_key(s: Seq<char>) -> bool {
    is_trimmed(s) && utf8_len(s) >= 10
}

impl View for TenantAnonKey {
    type V = Seq<char>;

    closed spec fn view(&self) -> Seq<char> {
        self.value@
    }
}

impl TenantAnonKey {
    pub open spec fn wf(&self) -> bool {
        valid_tenant_anon_key(self@)
    }

    /// Trims `value` and accepts it when at least ten bytes remain.
    pub fn new(value: String) -> (r: Result<TenantAnonKey, DomainError>)
        ensures
            r is Ok <==> utf8_len(trimmed(value@)) >= 10,
            r matches Ok(n) ==> n@ == trimmed(value@) && n.wf(),
            r matches Err(e) ==> e == DomainError::InvalidTenantAnonKey,
    {
        let normalized = trim(value.as_str());
        if byte_len(normalized.as_str()) < 10 {
            return Err(DomainError::InvalidTenantAnonKey);
        }
        proof {
            lemma_trimmed_is_trimmed(value@);
        }
        Ok(TenantAnonKey { value: normalized })
    }

    pub fn value(&self) -> (r: &str)
        ensures
            r@ == self@,
    {
        self.value.as_str()
    }
}

impl Clone for TenantAnonKey {
    fn clone(&self) -> (r: Self)
        ensures
            r@ == self@,
    {
        TenantAnonKey { value: self.value.clone() }
    }
}

impl PartialEq for TenantAnonKey {
    fn eq(&self, other: &Self) -> (r: bool) {
        self.value == other.value
    }
}

impl PartialEqSpecImpl for TenantAnonKey {
    open spec fn obeys_eq_spec() -> bool {
        true
    }

    open spec fn eq_spec(&self, other: &Self) -> bool {
        self@ == other@
    }
}

impl Eq for TenantAnonKey {

}

/// A stored key is accepted again unchanged.
pub proof fn lemma_tenant_anon_key_round_trip(s: Seq<char>)
    requires
        valid_tenant_anon_key(s),
    ensures
        trimmed(s) == s,
        utf8_len(trimmed(s)) >= 10,
{
    lemma_trimmed_fixed(s);
}

} // verus!
