//! The decisions of the tenancy query service: what a tenant lookup by anon key resolves to.

use crate::iam::tenancy::domain::{
    error::DomainError,
    model::{aggregates::tenant::Tenant, value_objects::tenant_status::TenantStatus},
    services::tenancy_query_service::{TenantOAuthConfigurationContext, TenantSchemaContext},
};
use vstd::prelude::*;

verus! {

/// The schema context of a looked-up tenant; an unknown or inactive tenant resolves to nothing.
pub fn resolve_tenant_schema(found: Result<Option<Tenant>, String>) -> (r: Result<
    Option<TenantSchemaContext>,
    DomainError,
>)
    ensures
        match found {
            Err(m) => r matches Err(DomainError::InternalError(m2)) && m2@ == m@,
            Ok(None) => r matches Ok(None),
            Ok(Some(t)) => if t@.status != TenantStatus::Active {
                r matches Ok(None)
            } else {
                r matches Ok(Some(c)) && c.tenant_id@ == t@.id && c.schema_name@
                    == t@.schema_name
            },
        },
{
    let tenant = match found {
        Err(m) => return Err(DomainError::InternalError(m)),
        Ok(t) => t,
    };
    let tenant = match tenant {
        None => return Ok(None),
        Some(t) => t,
    };
    if *tenant.status() != TenantStatus::Active {
        return Ok(None);
    }
    Ok(
        Some(
            TenantSchemaContext {
                tenant_id: tenant.id(),
                schema_name: tenant.schema_name().value().to_owned(),
            },
        ),
    )
}

/// The OAuth context of a looked-up tenant; an unknown or inactive tenant, or one without an
/// OAuth client, resolves to nothing.
pub fn resolve_tenant_oauth_configuration(found: Result<Option<Tenant>, String>) -> (r: Result<
    Option<TenantOAuthConfigurationContext>,
    DomainError,
>)
    ensures
        match found {
            Err(m) => r matches Err(DomainError::InternalError(m2)) && m2@ == m@,
            Ok(None) => r matches Ok(None),
            Ok(Some(t)) => match t@.google_oauth_configuration {
                Some(g) => if t@.status != TenantStatus::Active {
                    r matches Ok(None)
                } else {
                    r matches Ok(Some(c)) && c.tenant_id@ == t@.id && c.schema_name@
                        == t@.schema_name && c.google_client_id@ == g.client_id
                        && c.google_client_secret@ == g.client_secret
                },
                None => r matches Ok(None),
            },
        },
{
    let tenant = match found {
        Err(m) => return Err(DomainError::InternalError(m)),
        Ok(t) => t,
    };
    let tenant = match tenant {
        None => return Ok(None),
        Some(t) => t,
    };
    if *tenant.status() != TenantStatus::Active {
        return Ok(None);
    }
    let oauth = match tenant.google_oauth_configuration() {
        None => return Ok(None),
        Some(g) => g,
    };
    Ok(
        Some(
            TenantOAuthConfigurationContext {
                tenant_id: tenant.id(),
                schema_name: tenant.schema_name().value().to_owned(),
                google_client_id: oauth.client_id().to_owned(),
                google_client_secret: oauth.client_secret().to_owned(),
            },
        ),
    )
}

} // verus!
