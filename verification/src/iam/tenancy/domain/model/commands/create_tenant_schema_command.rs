use crate::iam::tenancy::domain::{
    error::DomainError,
    model::value_objects::{
        google_oauth_tenant_configuration::{
            google_oauth_required_text, GoogleOAuthTenantConfiguration,
        },
        tenant_name::TenantName,
        tenant_schema_name::{
            generated_schema_name, lemma_generated_schema_name_valid, TenantSchemaName,
        },
    },
};
use crate::shared::uuids::{is_random_uuid, random_uuid_v4, uuid_simple};
use crate::text::{trimmed, utf8_len};
use vstd::prelude::*;
use vstd::string::*;

verus! {

/// Request to create a tenant together with its own schema.
#[derive(Debug, Clone)]
pub struct CreateTenantSchemaCommand {
    pub tenant_name: TenantName,
    pub schema_name: TenantSchemaName,
    pub admin_user_id: u128,
    pub google_oauth_configuration: GoogleOAuthTenantConfiguration,
}

impl CreateTenantSchemaCommand {
    /// Validates the name and the OAuth client, and draws a fresh schema name
    /// `tenant_` + twelve hexadecimal digits of a random UUID.
    pub fn new(
        tenant_name: String,
        admin_user_id: u128,
        google_client_id: String,
        google_client_secret: String,
    ) -> (r: Result<CreateTenantSchemaCommand, DomainError>)
        ensures
            utf8_len(trimmed(tenant_name@)) < 2 ==> (r matches Err(e) && e
                == DomainError::InvalidTenantName),
            utf8_len(trimmed(tenant_name@)) >= 2 && !(trimmed(google_client_id@).len() > 0
                && trimmed(google_client_secret@).len() > 0) ==> (r matches Err(
                DomainError::InternalError(m),
            ) && m@ == google_oauth_required_text()),
            r is Ok <==> (utf8_len(trimmed(tenant_name@)) >= 2 && trimmed(google_client_id@).len()
                > 0 && trimmed(google_client_secret@).len() > 0),
            r matches Ok(c) ==> {
                &&& c.tenant_name@ == trimmed(tenant_name@)
                &&& c.tenant_name.wf()
                &&& c.admin_user_id == admin_user_id
                &&& c.google_oauth_configuration@.client_id == trimmed(google_client_id@)
                &&& c.google_oauth_configuration@.client_secret == trimmed(google_client_secret@)
                &&& c.google_oauth_configuration.wf()
                &&& c.schema_name.wf()
                &&& exists|bits: u128|
                    is_random_uuid(bits) && c.schema_name@ == generated_schema_name(bits)
            },
    {
        let tenant_name_vo = match TenantName::new(tenant_name) {
            Ok(n) => n,
            Err(e) => return Err(e),
        };
        let bits = random_uuid_v4();
        let compact_id = uuid_simple(bits);
        let schema_text = String::from_str("tenant_").concat(
            compact_id.as_str().substring_char(0, 12),
        );
        proof {
            lemma_generated_schema_name_valid(bits);
            assert(schema_text@ =~= generated_schema_name(bits));
        }
        let schema_name = match TenantSchemaName::new(schema_text) {
            Ok(s) => s,
            Err(e) => return Err(e),
        };
        let google_oauth_configuration = match GoogleOAuthTenantConfiguration::new(
            google_client_id,
            google_client_secret,
        ) {
            Ok(g) => g,
            Err(e) => return Err(e),
        };
        Ok(CreateTenantSchemaCommand {
            tenant_name: tenant_name_vo,
            schema_name,
            admin_user_id,
            google_oauth_configuration,
        })
    }
}

} // verus!
