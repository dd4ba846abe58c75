//! Randomness, hashing and hexadecimal encoding used for tenant keys.

use crate::shared::uuids::hex_digit;
use crate::text::string_from_chars;
use vstd::prelude::*;

verus! {

/// Lowercase hexadecimal text of a byte string, two digits per byte, high digit first.
pub open spec fn lower_hex(data: Seq<u8>) -> Seq<char> {
    Seq::new(
        2 * data.len(),
        |i: int|
            if i % 2 == 0 {
                hex_digit(data[i / 2] as int / 16)
            } else {
                hex_digit(data[i / 2] as int % 16)
            },
    )
}

/// Calls `rand::RngCore::fill_bytes` on the thread-local generator of `rand::rng` with a
/// 32-byte buffer. The bytes are random; only their number is stated.
#[verifier::external_body]
pub fn random_bytes_32() -> (v: Vec<u8>)
    ensures
        v.len() == 32,
{
    let mut bytes = [0u8; 32];
    rand::RngCore::fill_bytes(&mut rand::rng(), &mut bytes);
    bytes.to_vec()
}

/// Calls `hex::encode`: lowercase hexadecimal, two digits per byte.
#[verifier::external_body]
pub fn hex_encode(data: &[u8]) -> (s: String)
    ensures
        s@ == lower_hex(data@),
{
    hex::encode(data)
}

/// Name for what SHA-256 gives for a byte string.
pub uninterp spec fn sha256_of(data: Seq<u8>) -> Seq<u8>;

/// Calls `sha2::Sha256::digest` (`new`, `update`, `finalize`); the digest is 32 bytes long.
#[verifier::external_body]
pub fn sha256(data: &[u8]) -> (d: Vec<u8>)
    ensures
        d@ == sha256_of(data@),
        d@.len() == 32,
{
    <sha2::Sha256 as sha2::Digest>::digest(data).to_vec()
}

/// Whether `c` is an ASCII letter or digit.
pub open spec fn is_ascii_alphanumeric(c: char) -> bool {
    ('a' <= c && c <= 'z') || ('A' <= c && c <= 'Z') || ('0' <= c && c <= '9')
}

/// Calls `rand::Rng::sample` with `rand::distr::Alphanumeric` on the generator of
/// `rand::rng` and turns the drawn byte into a character. The draw is random; it is an ASCII
/// letter or digit.
#[verifier::external_body]
fn random_alphanumeric_char() -> (c: char)
    ensures
        is_ascii_alphanumeric(c),
{
    rand::Rng::sample(&mut rand::rng(), rand::distr::Alphanumeric) as char
}

/// `n` random ASCII letters and digits.
pub fn random_alphanumeric(n: usize) -> (s: String)
    ensures
        s@.len() == n,
        forall|i: int| 0 <= i < n ==> is_ascii_alphanumeric(#[trigger] s@[i]),
{
    let mut chars: Vec<char> = Vec::new();
    let mut k: usize = 0;
    while k < n
        invariant
            k <= n,
            chars@.len() == k,
            forall|i: int| 0 <= i < k ==> is_ascii_alphanumeric(#[trigger] chars@[i]),
        decreases n - k,
    {
        chars.push(random_alphanumeric_char());
        k = k + 1;
    }
    string_from_chars(&chars)
}

} // verus!
