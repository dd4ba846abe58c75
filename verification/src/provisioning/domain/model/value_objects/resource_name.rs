use crate::provisioning::domain::error::DomainError;
use crate::shared::crypto::is_ascii_alphanumeric;
use crate::text::{chars_of, trim, trimmed};
use vstd::prelude::*;
use vstd::string::*;

verus! {

/// Name for what `char::is_alphanumeric` gives: the Unicode `Alphabetic` or `Numeric`
/// property of the character.
pub uninterp spec fn unicode_alphanumeric(c: char) -> bool;

/// Calls `char::is_alphanumeric`. Among ASCII characters, exactly the letters and digits
/// are alphabetic or numeric.
#[verifier::external_body]
pub fn is_alphanumeric(c: char) -> (b: bool)
    ensures
        b == unicode_alphanumeric(c),
        c <= '\u{7f}' ==> (b == is_ascii_alphanumeric(c)),
{
    c.is_alphanumeric()
}

/// A character allowed in a resource name.
pub open spec fn is_resource_char(c: char) -> bool {
    unicode_alphanumeric(c) || c == '_' || c == '-'
}

/// The text of the error for a blank name.
pub open spec fn empty_resource_name_text() -> Seq<char> {
    "Resource name cannot be empty"@
}

/// The text of the error for a name with other characters.
pub open spec fn resource_name_charset_text() -> Seq<char> {
    "Resource name must be alphanumeric, underscore or hyphen"@
}

/// What a resource name satisfies.
pub open spec fn valid_resource_name(s: Seq<char>) -> bool {
    trimmed(s).len() > 0 && forall|i: int| 0 <= i < s.len() ==> is_resource_char(#[trigger] s[i])
}

/// The name of a database or schema to provision: not blank, made of letters, digits,
/// underscores and hyphens. It is kept as given.
#[derive(Debug)]
pub struct ResourceName {
    value: String,
}

impl View for ResourceName {
    type V = Seq<char>;

    closed spec fn view(&self) -> Seq<char> {
        self.value@
    }
}

impl ResourceName {
    pub open spec fn wf(&self) -> bool {
        valid_resource_name(self@)
    }

    pub fn new(name: String) -> (r: Result<ResourceName, DomainError>)
        ensures
            trimmed(name@).len() == 0 ==> (r matches Err(DomainError::ValidationError(m)) && m@
                == empty_resource_name_text()),
            trimmed(name@).len() > 0 && !valid_resource_name(name@) ==> (r matches Err(
                DomainError::ValidationError(m),
            ) && m@ == resource_name_charset_text()),
            r is Ok <==> valid_resource_name(name@),
            r matches Ok(n) ==> n@ == name@ && n.wf(),
            // an accepted name has no ASCII character but letters, digits, '_' and '-'
            r is Ok ==> forall|i: int|
                0 <= i < name@.len() && #[trigger] name@[i] <= '\u{7f}' ==> {
                    ||| ('a' <= name@[i] && name@[i] <= 'z')
                    ||| ('A' <= name@[i] && name@[i] <= 'Z')
                    ||| ('0' <= name@[i] && name@[i] <= '9')
                    ||| name@[i] == '_'
                    ||| name@[i] == '-'
                },
            // an ASCII name that is not blank and is made of those characters is accepted
            (trimmed(name@).len() > 0 && forall|i: int|
                0 <= i < name@.len() ==> {
                    ||| ('a' <= #[trigger] name@[i] && name@[i] <= 'z')
                    ||| ('A' <= name@[i] && name@[i] <= 'Z')
                    ||| ('0' <= name@[i] && name@[i] <= '9')
                    ||| name@[i] == '_'
                    ||| name@[i] == '-'
                }) ==> r is Ok,
    {
        if trim(name.as_str()).as_str().is_empty() {
            return Err(DomainError::ValidationError(String::from_str("Resource name cannot be empty")));
        }
        let chars = chars_of(name.as_str());
        let mut i: usize = 0;
        while i < chars.len()
            invariant
                i <= chars.len(),
                chars@ == name@,
                trimmed(name@).len() > 0,
                forall|j: int| 0 <= j < i ==> is_resource_char(#[trigger] chars@[j]),
                forall|j: int|
                    0 <= j < i && #[trigger] chars@[j] <= '\u{7f}' ==> is_ascii_alphanumeric(chars@[j])
                        || chars@[j] == '_' || chars@[j] == '-',
            decreases chars.len() - i,
        {
            let c = chars[i];
            if !(is_alphanumeric(c) || c == '_' || c == '-') {
                return Err(
                    DomainError::ValidationError(
                        String::from_str("Resource name must be alphanumeric, underscore or hyphen"),
                    ),
                );
            }
            i = i + 1;
        }
        Ok(ResourceName { value: name })
    }

    pub fn value(&self) -> (r: &str)
        ensures
            r@ == self@,
    {
        self.value.as_str()
    }
}

impl Clone for ResourceName {
    fn clone(&self) -> (r: Self)
        ensures
            r@ == self@,
    {
        ResourceName { value: self.value.clone() }
    }
}

} // verus!
