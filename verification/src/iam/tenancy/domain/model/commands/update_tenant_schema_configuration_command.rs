use crate::iam::tenancy::domain::{
    error::DomainError,
    model::value_objects::{
        google_oauth_tenant_configuration::{
            google_oauth_required_text, GoogleOAuthTenantConfiguration,
        },
        tenant_frontend_url::TenantFrontendUrl,
        tenant_id::TenantId,
        tenant_name::TenantName,
    },
};
use crate::text::{seq_starts_with, trimmed, utf8_len};
use vstd::prelude::*;

verus! {

/// Request to change some of a tenant's settings; absent fields stay as they are.
#[derive(Debug, Clone)]
pub struct UpdateTenantSchemaConfigurationCommand {
    pub tenant_id: TenantId,
    pub tenant_name: Option<TenantName>,
    pub frontend_url: Option<TenantFrontendUrl>,
    pub google_oauth_configuration: Option<GoogleOAuthTenantConfiguration>,
}

/// The optional name is absent or a valid one.
pub open spec fn optional_name_ok(n: Option<String>) -> bool {
    match n {
        Some(s) => utf8_len(trimmed(s@)) >= 2,
        None => true,
    }
}

/// The optional frontend address is absent or a valid one.
pub open spec fn optional_url_ok(u: Option<String>) -> bool {
    match u {
        Some(s) => seq_starts_with(trimmed(s@), "http://"@) || seq_starts_with(
            trimmed(s@),
            "https://"@,
        ),
        None => true,
    }
}

/// Exactly one of the two OAuth parts is given.
pub open spec fn google_parts_mismatched(id: Option<String>, secret: Option<String>) -> bool {
    id is Some != secret is Some
}

/// Both OAuth parts are given and both are non-empty once trimmed.
pub open spec fn google_parts_valid(id: Option<String>, secret: Option<String>) -> bool {
    &&& id is Some
    &&& secret is Some
    &&& trimmed(id->0@).len() > 0
    &&& trimmed(secret->0@).len() > 0
}

/// The text of the error for a lone OAuth part.
pub open spec fn google_parts_together_text() -> Seq<char> {
    "Both google_client_id and google_client_secret are required together"@
}

/// The text of the error for an update that changes nothing.
pub open spec fn no_updatable_field_text() -> Seq<char> {
    "At least one updatable field is required"@
}

impl UpdateTenantSchemaConfigurationCommand {
    /// Validates each given field, in the order id, name, frontend address, OAuth client;
    /// the OAuth parts come together or not at all, and at least one field must be given.
    pub fn new(
        tenant_id: u128,
        tenant_name: Option<String>,
        frontend_url: Option<String>,
        google_client_id: Option<String>,
        google_client_secret: Option<String>,
    ) -> (r: Result<UpdateTenantSchemaConfigurationCommand, DomainError>)
        ensures
            tenant_id == 0 ==> (r matches Err(e) && e == DomainError::InvalidId),
            tenant_id != 0 && !optional_name_ok(tenant_name) ==> (r matches Err(e) && e
                == DomainError::InvalidTenantName),
            tenant_id != 0 && optional_name_ok(tenant_name) && !optional_url_ok(frontend_url) ==> (
            r matches Err(e) && e == DomainError::InvalidFrontendUrl),
            tenant_id != 0 && optional_name_ok(tenant_name) && optional_url_ok(frontend_url)
                && google_parts_mismatched(google_client_id, google_client_secret) ==> (r matches Err(
                DomainError::InternalError(m),
            ) && m@ == google_parts_together_text()),
            tenant_id != 0 && optional_name_ok(tenant_name) && optional_url_ok(frontend_url)
                && google_client_id is Some && google_client_secret is Some && !google_parts_valid(
                google_client_id,
                google_client_secret,
            ) ==> (r matches Err(DomainError::InternalError(m)) && m@
                == google_oauth_required_text()),
            tenant_id != 0 && optional_name_ok(tenant_name) && optional_url_ok(frontend_url)
                && tenant_name is None && frontend_url is None && google_client_id is None
                && google_client_secret is None ==> (r matches Err(DomainError::InternalError(m))
                && m@ == no_updatable_field_text()),
            r is Ok <==> {
                &&& tenant_id != 0
                &&& optional_name_ok(tenant_name)
                &&& optional_url_ok(frontend_url)
                &&& (google_parts_valid(google_client_id, google_client_secret) || (
                google_client_id is None && google_client_secret is None))
                &&& !(tenant_name is None && frontend_url is None && google_client_id is None)
            },
            r matches Ok(c) ==> {
                &&& c.tenant_id@ == tenant_id
                &&& match c.tenant_name {
                    Some(n) => tenant_name is Some && n@ == trimmed(tenant_name->0@) && n.wf(),
                    None => tenant_name is None,
                }
                &&& match c.frontend_url {
                    Some(u) => frontend_url is Some && u@ == trimmed(frontend_url->0@) && u.wf(),
                    None => frontend_url is None,
                }
                &&& match c.google_oauth_configuration {
                    Some(g) => google_client_id is Some && g@.client_id == trimmed(
                        google_client_id->0@,
                    ) && g@.client_secret == trimmed(google_client_secret->0@) && g.wf(),
                    None => google_client_id is None,
                }
            },
    {
        let tenant_id = match TenantId::from_uuid(tenant_id) {
            Ok(id) => id,
            Err(e) => return Err(e),
        };
        let tenant_name = match tenant_name {
            Some(n) => match TenantName::new(n) {
                Ok(v) => Some(v),
                Err(e) => return Err(e),
            },
            None => None,
        };
        let frontend_url = match frontend_url {
            Some(u) => match TenantFrontendUrl::new(u) {
                Ok(v) => Some(v),
                Err(e) => return Err(e),
            },
            None => None,
        };
        let google_oauth_configuration = match (google_client_id, google_client_secret) {
            (Some(client_id), Some(client_secret)) => match GoogleOAuthTenantConfiguration::new(
                client_id,
                client_secret,
            ) {
                Ok(g) => Some(g),
                Err(e) => return Err(e),
            },
            (None, None) => None,
            _ => {
                return Err(
                    DomainError::internal(
                        "Both google_client_id and google_client_secret are required together",
                    ),
                );
            },
        };
        if tenant_name.is_none() && frontend_url.is_none() && google_oauth_configuration.is_none() {
            return Err(DomainError::internal("At least one updatable field is required"));
        }
        Ok(UpdateTenantSchemaConfigurationCommand {
            tenant_id,
            tenant_name,
            frontend_url,
            google_oauth_configuration,
        })
    }
}

} // verus!
