//! The rules of the Vault client: addresses, failure texts, and when to log in again.

use crate::text::{contains, seq_contains};
use vstd::prelude::*;
use vstd::string::*;

verus! {

/// A failure talking to Vault.
#[derive(Debug, Clone)]
pub struct VaultError {
    message: String,
}

impl VaultError {
    pub closed spec fn text(&self) -> Seq<char> {
        self.message@
    }

    pub fn new(message: String) -> (e: VaultError)
        ensures
            e.text() == message@,
    {
        VaultError { message }
    }

    pub fn message(&self) -> (m: &str)
        ensures
            m@ == self.text(),
    {
        self.message.as_str()
    }
}

/// A failure that a fresh token may cure: the text mentions `403` or `permission denied`.
pub open spec fn auth_error_text(m: Seq<char>) -> bool {
    seq_contains(m, "403"@) || seq_contains(m, "permission denied"@)
}

/// Whether the failure came from a refused or expired token.
pub fn is_auth_error(err: &VaultError) -> (b: bool)
    ensures
        b == auth_error_text(err.text()),
{
    contains(err.message(), "403") || contains(err.message(), "permission denied")
}

/// Whether a request should be made again with a fresh login: only after an auth failure.
pub fn retry_with_fresh_token<T>(first: &Result<T, VaultError>) -> (b: bool)
    ensures
        b == (first matches Err(e) && auth_error_text(e.text())),
{
    match first {
        Ok(_) => false,
        Err(e) => is_auth_error(e),
    }
}

/// `<addr>/v1/<mount>/data/<path>`: where a secret's data is read and written.
pub fn kv_data_url(addr: &str, kv_mount: &str, secret_path: &str) -> (u: String)
    ensures
        u@ == addr@ + "/v1/"@ + kv_mount@ + "/data/"@ + secret_path@,
{
    String::from_str(addr).concat("/v1/").concat(kv_mount).concat("/data/").concat(secret_path)
}

/// `<addr>/v1/<mount>/metadata/<path>`: where a secret is deleted with all its versions.
pub fn kv_metadata_url(addr: &str, kv_mount: &str, secret_path: &str) -> (u: String)
    ensures
        u@ == addr@ + "/v1/"@ + kv_mount@ + "/metadata/"@ + secret_path@,
{
    String::from_str(addr).concat("/v1/").concat(kv_mount).concat("/metadata/").concat(
        secret_path,
    )
}

/// `<addr>/v1/auth/approle/login`.
pub fn approle_login_url(addr: &str) -> (u: String)
    ensures
        u@ == addr@ + "/v1/auth/approle/login"@,
{
    String::from_str(addr).concat("/v1/auth/approle/login")
}

/// The failure of an answered request: `Vault <operation> failed: <status> - <body>`.
pub fn request_failure(operation: &str, status: &str, body: &str) -> (e: VaultError)
    ensures
        e.text() == "Vault "@ + operation@ + " failed: "@ + status@ + " - "@ + body@,
{
    VaultError::new(
        String::from_str("Vault ").concat(operation).concat(" failed: ").concat(status).concat(
            " - ",
        ).concat(body),
    )
}

} // verus!
