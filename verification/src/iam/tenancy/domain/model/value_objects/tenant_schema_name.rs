use crate::iam::tenancy::domain::error::DomainError;
use crate::shared::uuids::{hex_digit, uuid_nibble, uuid_simple_text};
use crate::text::{
    all_ascii, lemma_ascii_utf8_len, ascii_lowercase, byte_len, chars_of, is_trimmed, is_white_space, seq_starts_with,
    starts_with, to_lowercase, trim, trimmed, unicode_lowercase, utf8_len,
};
use vstd::prelude::*;
use vstd::std_specs::cmp::PartialEqSpecImpl;

verus! {

/// The database schema (or database) name of a tenant: `tenant_` followed by ASCII lowercase
/// letters, digits and underscores, between 5 and 63 bytes long.
#[derive(Debug)]
pub struct TenantSchemaName {
    value: String,
}

/// A character allowed in a schema name.
pub open spec fn is_schema_char(c: char) -> bool {
    ('a' <= c && c <= 'z') || ('0' <= c && c <= '9') || c == '_'
}

/// What a schema name satisfies.
pub open spec fn valid_schema_name(s: Seq<char>) -> bool {
    &&& 5 <= utf8_len(s) <= 63
    &&& forall|i: int| 0 <= i < s.len() ==> is_schema_char(#[trigger] s[i])
    &&& seq_starts_with(s, "tenant_"@)
}

impl View for TenantSchemaName {
    type V = Seq<char>;

    closed spec fn view(&self) -> Seq<char> {
        self.value@
    }
}

fn is_schema_char_exec(c: char) -> (b: bool)
    ensures
        b == is_schema_char(c),
{
    ('a' <= c && c <= 'z') || ('0' <= c && c <= '9') || c == '_'
}

impl TenantSchemaName {
    pub open spec fn wf(&self) -> bool {
        valid_schema_name(self@)
    }

    /// Accepts a name that is already trimmed and lowercased when it is a valid schema name.
    pub fn from_normalized(normalized: String) -> (r: Result<TenantSchemaName, DomainError>)
        ensures
            r is Ok <==> valid_schema_name(normalized@),
            r matches Ok(n) ==> n@ == normalized@ && n.wf(),
            r matches Err(e) ==> e == DomainError::InvalidTenantName,
    {
        let len = byte_len(normalized.as_str());
        if len < 5 || len > 63 {
            return Err(DomainError::InvalidTenantName);
        }
        let chars = chars_of(normalized.as_str());
        let mut i: usize = 0;
        while i < chars.len()
            invariant
                i <= chars.len(),
                chars@ == normalized@,
                forall|j: int| 0 <= j < i ==> is_schema_char(#[trigger] chars@[j]),
            decreases chars.len() - i,
        {
            if !is_schema_char_exec(chars[i]) {
                return Err(DomainError::InvalidTenantName);
            }
            i = i + 1;
        }
        if !starts_with(normalized.as_str(), "tenant_") {
            return Err(DomainError::InvalidTenantName);
        }
        Ok(TenantSchemaName { value: normalized })
    }

    /// Trims and lowercases `value` (Unicode lowercase), then accepts it when it is a valid
    /// schema name.
    pub fn new(value: String) -> (r: Result<TenantSchemaName, DomainError>)
        ensures
            r is Ok <==> valid_schema_name(unicode_lowercase(trimmed(value@))),
            r matches Ok(n) ==> n@ == unicode_lowercase(trimmed(value@)) && n.wf(),
            r matches Err(e) ==> e == DomainError::InvalidTenantName,
            all_ascii(trimmed(value@)) ==> unicode_lowercase(trimmed(value@)) == ascii_lowercase(
                trimmed(value@),
            ),
    {
        let trimmed_value = trim(value.as_str());
        let normalized = to_lowercase(trimmed_value.as_str());
        Self::from_normalized(normalized)
    }

    pub fn value(&self) -> (r: &str)
        ensures
            r@ == self@,
    {
        self.value.as_str()
    }
}

impl Clone for TenantSchemaName {
    fn clone(&self) -> (r: Self)
        ensures
            r@ == self@,
    {
        TenantSchemaName { value: self.value.clone() }
    }
}

impl PartialEq for TenantSchemaName {
    fn eq(&self, other: &Self) -> (r: bool) {
        self.value == other.value
    }
}

impl PartialEqSpecImpl for TenantSchemaName {
    open spec fn obeys_eq_spec() -> bool {
        true
    }

    open spec fn eq_spec(&self, other: &Self) -> bool {
        self@ == other@
    }
}

impl Eq for TenantSchemaName {

}

/// A valid schema name is ASCII, has no white space at its ends and no uppercase letter, so
/// trimming and lowercasing it gives it back.
pub proof fn lemma_schema_name_round_trip(s: Seq<char>)
    requires
        valid_schema_name(s),
    ensures
        trimmed(s) == s,
        all_ascii(s),
        ascii_lowercase(s) == s,
{
    if s.len() > 0 {
        assert(is_schema_char(s[0]));
        assert(is_schema_char(s.last()));
        assert(!is_white_space(s[0]));
        assert(!is_white_space(s.last()));
    }
    assert(is_trimmed(s));
    crate::text::lemma_trimmed_fixed(s);
    assert forall|i: int| 0 <= i < s.len() implies '\0' <= #[trigger] s[i] <= '\u{7f}' by {
        assert(is_schema_char(s[i]));
    }
    assert(ascii_lowercase(s) =~= s) by {
        assert forall|i: int| 0 <= i < s.len() implies #[trigger] ascii_lowercase(s)[i] == s[i] by {
            assert(is_schema_char(s[i]));
        }
    }
}


/// The schema name made of `tenant_` and the first twelve hexadecimal digits of a UUID.
pub open spec fn generated_schema_name(bits: u128) -> Seq<char> {
    "tenant_"@ + uuid_simple_text(bits).subrange(0, 12)
}

/// A generated schema name is valid, and trimming and lowercasing leave it unchanged.
pub proof fn lemma_generated_schema_name_valid(bits: u128)
    ensures
        valid_schema_name(generated_schema_name(bits)),
        trimmed(generated_schema_name(bits)) == generated_schema_name(bits),
        all_ascii(generated_schema_name(bits)),
        ascii_lowercase(generated_schema_name(bits)) == generated_schema_name(bits),
{
    reveal_strlit("tenant_");
    let t = generated_schema_name(bits);
    assert(t.len() == 19);
    assert forall|i: int| 0 <= i < t.len() implies is_schema_char(#[trigger] t[i]) by {
        if i >= 7 {
            let n = uuid_nibble(bits, i - 7);
            assert(0 <= n < 16);
            assert(t[i] == hex_digit(n));
        }
    }
    assert forall|i: int| 0 <= i < t.len() implies '\0' <= #[trigger] t[i] <= '\u{7f}' by {
        assert(is_schema_char(t[i]));
    }
    lemma_ascii_utf8_len(t);
    assert(t.subrange(0, 7) =~= "tenant_"@);
    lemma_schema_name_round_trip(t);
}

} // verus!
