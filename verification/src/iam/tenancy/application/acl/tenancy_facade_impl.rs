//! The tenancy facade: what other contexts are given of a resolved tenant.

use crate::iam::tenancy::domain::services::tenancy_query_service::{
    TenantOAuthConfigurationContext, TenantSchemaContext,
};
use crate::iam::tenancy::interfaces::acl::tenancy_facade::{
    TenantOAuthConfigurationContextAcl, TenantSchemaContextAcl,
};
use vstd::prelude::*;

verus! {

/// The facade's view of a resolved schema context.
pub fn schema_context_acl(context: Option<TenantSchemaContext>) -> (r: Option<
    TenantSchemaContextAcl,
>)
    ensures
        match context {
            None => r is None,
            Some(c) => r matches Some(a) && a.tenant_id == c.tenant_id@ && a.schema_name@
                == c.schema_name@,
        },
{
    match context {
        None => None,
        Some(c) => Some(
            TenantSchemaContextAcl { tenant_id: c.tenant_id.value(), schema_name: c.schema_name },
        ),
    }
}

/// The facade's view of a resolved OAuth context, with the platform's redirect address.
pub fn oauth_context_acl(
    context: Option<TenantOAuthConfigurationContext>,
    google_redirect_uri: String,
) -> (r: Option<TenantOAuthConfigurationContextAcl>)
    ensures
        match context {
            None => r is None,
            Some(c) => r matches Some(a) && a.tenant_id == c.tenant_id@ && a.schema_name@
                == c.schema_name@ && a.google_client_id@ == c.google_client_id@
                && a.google_client_secret@ == c.google_client_secret@ && a.google_redirect_uri@
                == google_redirect_uri@,
        },
{
    match context {
        None => None,
        Some(c) => Some(
            TenantOAuthConfigurationContextAcl {
                tenant_id: c.tenant_id.value(),
                schema_name: c.schema_name,
                google_client_id: c.google_client_id,
                google_client_secret: c.google_client_secret,
                google_redirect_uri,
            },
        ),
    }
}

} // verus!
