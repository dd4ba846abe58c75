//! Identifiers held as the 128-bit value of a UUID (big-endian, as `Uuid::as_u128` gives it).

use vstd::prelude::*;
use vstd::arithmetic::power::pow;

verus! {

/// Lowercase hexadecimal digit of `n` (`0 <= n < 16`).
pub open spec fn hex_digit(n: int) -> char {
    if n < 10 {
        ((48 + n) as u32) as char
    } else {
        ((97 + n - 10) as u32) as char
    }
}

/// The `i`-th hexadecimal digit of a 128-bit value, most significant first.
pub open spec fn uuid_nibble(bits: u128, i: int) -> int {
    (bits as int / pow(16, (31 - i) as nat)) % 16
}

/// The 32 lowercase hexadecimal digits of a UUID, without hyphens.
pub open spec fn uuid_simple_text(bits: u128) -> Seq<char> {
    Seq::new(32, |i: int| hex_digit(uuid_nibble(bits, i)))
}

/// A version 4, RFC 4122 variant UUID: version nibble 4, variant bits `10`.
pub open spec fn is_random_uuid(bits: u128) -> bool {
    (bits >> 76u128) & 0xfu128 == 4u128 && (bits >> 62u128) & 0x3u128 == 2u128
}

/// Calls `uuid::Uuid::new_v4`. The value is random; its version nibble is 4 and its variant
/// bits are `10`, which `new_v4` sets on every value it returns.
#[verifier::external_body]
pub fn random_uuid_v4() -> (bits: u128)
    ensures
        is_random_uuid(bits),
{
    uuid::Uuid::new_v4().as_u128()
}

/// Calls `uuid::Uuid::simple` and its `Display`: 32 lowercase hexadecimal digits of the value.
#[verifier::external_body]
pub fn uuid_simple(bits: u128) -> (s: String)
    ensures
        s@ == uuid_simple_text(bits),
{
    uuid::Uuid::from_u128(bits).simple().to_string()
}

/// The hyphenated lowercase text of a UUID: 8, 4, 4, 4 and 12 hexadecimal digits.
pub open spec fn uuid_hyphenated_text(bits: u128) -> Seq<char> {
    let h = uuid_simple_text(bits);
    h.subrange(0, 8) + "-"@ + h.subrange(8, 12) + "-"@ + h.subrange(12, 16) + "-"@ + h.subrange(
        16,
        20,
    ) + "-"@ + h.subrange(20, 32)
}

/// Calls the `Display` of `uuid::Uuid`: the hyphenated lowercase form.
#[verifier::external_body]
pub fn uuid_hyphenated(bits: u128) -> (s: String)
    ensures
        s@ == uuid_hyphenated_text(bits),
{
    uuid::Uuid::from_u128(bits).to_string()
}

/// Name for what `uuid::Uuid::parse_str` gives back for a text: the value, or the text of
/// its error.
pub uninterp spec fn uuid_parse_outcome(s: Seq<char>) -> Result<u128, Seq<char>>;

/// Calls `uuid::Uuid::parse_str`; the error is turned into its display text.
#[verifier::external_body]
pub fn parse_uuid(s: &str) -> (r: Result<u128, String>)
    ensures
        match r {
            Ok(bits) => uuid_parse_outcome(s@) == Ok::<u128, Seq<char>>(bits),
            Err(m) => uuid_parse_outcome(s@) == Err::<u128, Seq<char>>(m@),
        },
{
    match uuid::Uuid::parse_str(s) {
        Ok(u) => Ok(u.as_u128()),
        Err(e) => Err(e.to_string()),
    }
}

/// A random UUID is never nil.
pub proof fn lemma_random_uuid_not_nil(bits: u128)
    requires
        is_random_uuid(bits),
    ensures
        bits != 0,
{
    assert(is_random_uuid(bits) ==> bits != 0) by (bit_vector);
}

} // verus!
