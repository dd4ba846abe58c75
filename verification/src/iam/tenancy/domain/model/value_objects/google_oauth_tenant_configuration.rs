use crate::iam::tenancy::domain::error::DomainError;
use crate::text::{is_trimmed, lemma_trimmed_fixed, lemma_trimmed_is_trimmed, trim, trimmed};
use vstd::prelude::*;
use vstd::std_specs::cmp::PartialEqSpecImpl;

verus! {

/// The Google OAuth client of a tenant; both parts trimmed and non-empty.
#[derive(Debug)]
pub struct GoogleOAuthTenantConfiguration {
    client_id: String,
    client_secret: String,
}

/// Abstract contents of a Google OAuth configuration.
pub struct GoogleOAuthView {
    pub client_id: Seq<char>,
    pub client_secret: Seq<char>,
}

/// What a stored OAuth configuration satisfies.
pub open spec fn valid_google_oauth(v: GoogleOAuthView) -> bool {
    &&& is_trimmed(v.client_id)
    &&& v.client_id.len() > 0
    &&& is_trimmed(v.client_secret)
    &&& v.client_secret.len() > 0
}

/// The text of the error for a missing client id or secret.
pub open spec fn google_oauth_required_text() -> Seq<char> {
    "Google OAuth configuration is required"@
}

impl View for GoogleOAuthTenantConfiguration {
    type V = GoogleOAuthView;

    closed spec fn view(&self) -> GoogleOAuthView {
        GoogleOAuthView { client_id: self.client_id@, client_secret: self.client_secret@ }
    }
}

impl GoogleOAuthTenantConfiguration {
    pub open spec fn wf(&self) -> bool {
        valid_google_oauth(self@)
    }

    /// Trims both parts; fails when either is empty after trimming.
    pub fn new(client_id: String, client_secret: String) -> (r: Result<
        GoogleOAuthTenantConfiguration,
        DomainError,
    >)
        ensures
            r is Ok <==> (trimmed(client_id@).len() > 0 && trimmed(client_secret@).len() > 0),
            r matches Ok(c) ==> c@.client_id == trimmed(client_id@) && c@.client_secret == trimmed(
                client_secret@,
            ) && c.wf(),
            r matches Err(e) ==> (e matches DomainError::InternalError(m) && m@
                == google_oauth_required_text()),
    {
        let id = trim(client_id.as_str());
        let secret = trim(client_secret.as_str());
        if id.as_str().is_empty() || secret.as_str().is_empty() {
            return Err(DomainError::internal("Google OAuth configuration is required"));
        }
        proof {
            lemma_trimmed_is_trimmed(client_id@);
            lemma_trimmed_is_trimmed(client_secret@);
        }
        Ok(GoogleOAuthTenantConfiguration { client_id: id, client_secret: secret })
    }

    pub fn client_id(&self) -> (r: &str)
        ensures
            r@ == self@.client_id,
    {
        self.client_id.as_str()
    }

    pub fn client_secret(&self) -> (r: &str)
        ensures
            r@ == self@.client_secret,
    {
        self.client_secret.as_str()
    }
}

impl Clone for GoogleOAuthTenantConfiguration {
    fn clone(&self) -> (r: Self)
        ensures
            r@ == self@,
    {
        GoogleOAuthTenantConfiguration {
            client_id: self.client_id.clone(),
            client_secret: self.client_secret.clone(),
        }
    }
}

impl PartialEq for GoogleOAuthTenantConfiguration {
    fn eq(&self, other: &Self) -> (r: bool) {
        self.client_id == other.client_id && self.client_secret == other.client_secret
    }
}

impl PartialEqSpecImpl for GoogleOAuthTenantConfiguration {
    open spec fn obeys_eq_spec() -> bool {
        true
    }

    open spec fn eq_spec(&self, other: &Self) -> bool {
        self@ == other@
    }
}

impl Eq for GoogleOAuthTenantConfiguration {

}

/// A stored configuration is accepted again unchanged.
pub proof fn lemma_google_oauth_round_trip(v: GoogleOAuthView)
    requires
        valid_google_oauth(v),
    ensures
        trimmed(v.client_id) == v.client_id,
        trimmed(v.client_secret) == v.client_secret,
{
    lemma_trimmed_fixed(v.client_id);
    lemma_trimmed_fixed(v.client_secret);
}

} // verus!
