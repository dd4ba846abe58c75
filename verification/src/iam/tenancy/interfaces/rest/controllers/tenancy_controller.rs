//! The decisions of the tenancy REST endpoints: which requests go through, which reply each
//! outcome gets. The transport, token validation and JSON encoding happen around them.

use crate::iam::tenancy::domain::{
    error::DomainError,
    model::commands::{
        create_tenant_schema_command::CreateTenantSchemaCommand,
        delete_tenant_schema_command::DeleteTenantSchemaCommand,
        rotate_tenant_keys_command::RotateTenantKeysCommand,
    },
    services::tenancy_command_service::{CreatedTenantSchemaResult, RotatedTenantKeysResult},
};
use crate::iam::tenancy::interfaces::rest::resources::{
    create_tenant_schema_resource::{CreateTenantSchemaResource, CreateTenantSchemaResponseResource},
    delete_tenant_schema_resource::DeleteTenantSchemaResponseResource,
    rotate_tenant_keys_resource::RotateTenantKeysResponseResource,
};
use crate::shared::uuids::{parse_uuid, uuid_hyphenated, uuid_hyphenated_text, uuid_parse_outcome};
use crate::iam::tenancy::domain::model::value_objects::google_oauth_tenant_configuration::google_oauth_required_text;
use crate::iam::tenancy::domain::model::value_objects::tenant_frontend_url::TenantFrontendUrl;
use crate::text::{seq_starts_with, starts_with, str_equal, trim, trimmed, utf8_len};
use vstd::prelude::*;
use vstd::string::*;

verus! {

/// An error reply: HTTP status code and message.
#[derive(Debug, Clone)]
pub struct ErrorReply {
    pub status: u16,
    pub message: String,
}

/// The token of an `Authorization` header: what follows `Bearer ` or `bearer `.
pub open spec fn bearer_token(header: Seq<char>) -> Option<Seq<char>> {
    if seq_starts_with(header, "Bearer "@) {
        Some(header.subrange(7, header.len() as int))
    } else if seq_starts_with(header, "bearer "@) {
        Some(header.subrange(7, header.len() as int))
    } else {
        None
    }
}

/// The bearer token of the `Authorization` header; 401 when the header is missing, has
/// another scheme, or carries only white space.
pub fn parse_bearer_token(authorization: Option<&str>) -> (r: Result<String, u16>)
    ensures
        match authorization {
            None => r == Err::<String, u16>(401),
            Some(h) => match bearer_token(h@) {
                None => r == Err::<String, u16>(401),
                Some(t) => if trimmed(t).len() == 0 {
                    r == Err::<String, u16>(401)
                } else {
                    r matches Ok(tok) && tok@ == t
                },
            },
        },
{
    let header = match authorization {
        None => return Err(401),
        Some(h) => h,
    };
    proof {
        reveal_strlit("Bearer ");
        reveal_strlit("bearer ");
    }
    let n = header.unicode_len();
    let token = if starts_with(header, "Bearer ") || starts_with(header, "bearer ") {
        header.substring_char(7, n)
    } else {
        return Err(401);
    };
    if trim(token).as_str().is_empty() {
        return Err(401);
    }
    Ok(token.to_owned())
}

/// Admits the token's subject only when its role is `admin`; 403 otherwise.
pub fn require_admin_role(role: &str, subject: u128) -> (r: Result<u128, u16>)
    ensures
        role@ == "admin"@ ==> r == Ok::<u128, u16>(subject),
        role@ != "admin"@ ==> r == Err::<u128, u16>(403),
{
    if !str_equal(role, "admin") {
        return Err(403);
    }
    Ok(subject)
}

/// The reply to a refused caller with status `status`: 403 `Admin role required`, and for
/// any other status 401 `Invalid or missing token`.
pub open spec fn auth_failure_text(status: u16, e: ErrorReply) -> bool {
    if status == 403 {
        e.status == 403 && e.message@ == "Admin role required"@
    } else {
        e.status == 401 && e.message@ == "Invalid or missing token"@
    }
}

/// The reply to a refused caller: 403 keeps its own message, anything else becomes 401.
pub fn auth_failure_reply(status: u16) -> (r: ErrorReply)
    ensures
        status == 403 ==> r.status == 403 && r.message@ == "Admin role required"@,
        status != 403 ==> r.status == 401 && r.message@ == "Invalid or missing token"@,
{
    if status == 403 {
        ErrorReply { status: 403, message: String::from_str("Admin role required") }
    } else {
        ErrorReply { status: 401, message: String::from_str("Invalid or missing token") }
    }
}

/// Whether a creation request's tenant name and OAuth client make a command.
pub open spec fn create_command_ok(resource: CreateTenantSchemaResource) -> bool {
    &&& utf8_len(trimmed(resource.tenant_name@)) >= 2
    &&& trimmed(resource.google_client_id@).len() > 0
    &&& trimmed(resource.google_client_secret@).len() > 0
}

/// Whether a creation request's frontend address is an `http` or `https` one.
pub open spec fn create_frontend_url_ok(resource: CreateTenantSchemaResource) -> bool {
    seq_starts_with(trimmed(resource.frontend_url@), "http://"@) || seq_starts_with(
        trimmed(resource.frontend_url@),
        "https://"@,
    )
}

/// A creation request: the body must be valid, then the caller an admin, then the command
/// well formed, then the frontend address; each failure has its reply.
pub fn plan_create_tenant_schema(
    validation: Result<(), String>,
    admin: Result<u128, u16>,
    resource: CreateTenantSchemaResource,
) -> (r: Result<(CreateTenantSchemaCommand, TenantFrontendUrl), ErrorReply>)
    ensures
        validation matches Err(m) ==> (r matches Err(e) && e.status == 400 && e.message@ == m@),
        validation is Ok && admin is Err ==> (r matches Err(e) && auth_failure_text(
            admin->Err_0,
            e,
        )),
        validation is Ok && admin is Ok ==> match r {
            Ok((c, u)) => {
                &&& c.admin_user_id == admin->Ok_0
                &&& c.tenant_name@ == trimmed(resource.tenant_name@)
                &&& c.google_oauth_configuration@.client_id == trimmed(resource.google_client_id@)
                &&& c.google_oauth_configuration@.client_secret == trimmed(
                    resource.google_client_secret@,
                )
                &&& c.schema_name.wf()
                &&& u@ == trimmed(resource.frontend_url@)
                &&& u.wf()
            },
            Err(e) => e.status == 400 && if utf8_len(trimmed(resource.tenant_name@)) < 2 {
                e.message@ == DomainError::InvalidTenantName.text()
            } else if !create_command_ok(resource) {
                e.message@ == "Internal error: "@ + google_oauth_required_text()
            } else {
                e.message@ == DomainError::InvalidFrontendUrl.text()
            },
        },
        r is Ok <==> (validation is Ok && admin is Ok && create_command_ok(resource)
            && create_frontend_url_ok(resource)),
{
    if let Err(m) = validation {
        return Err(ErrorReply { status: 400, message: m });
    }
    let admin_user_id = match admin {
        Ok(id) => id,
        Err(status) => return Err(auth_failure_reply(status)),
    };
    let frontend_url = resource.frontend_url;
    let command = match CreateTenantSchemaCommand::new(
        resource.tenant_name,
        admin_user_id,
        resource.google_client_id,
        resource.google_client_secret,
    ) {
        Ok(command) => command,
        Err(error) => return Err(ErrorReply { status: 400, message: error.message() }),
    };
    match TenantFrontendUrl::new(frontend_url) {
        Ok(url) => Ok((command, url)),
        Err(error) => Err(ErrorReply { status: 400, message: error.message() }),
    }
}

/// The tenant id of a request path: 400 `Invalid tenant_id` when it is not a UUID, 400 with
/// the domain message when it is the nil UUID.
pub fn tenant_id_from_path(tenant_id: &str) -> (r: Result<u128, ErrorReply>)
    ensures
        match uuid_parse_outcome(tenant_id@) {
            Err(_) => r matches Err(e) && e.status == 400 && e.message@ == "Invalid tenant_id"@,
            Ok(bits) => if bits == 0 {
                r matches Err(e) && e.status == 400 && e.message@ == DomainError::InvalidId.text()
            } else {
                r == Ok::<u128, ErrorReply>(bits)
            },
        },
{
    let bits = match parse_uuid(tenant_id) {
        Ok(b) => b,
        Err(_) => {
            return Err(ErrorReply { status: 400, message: String::from_str("Invalid tenant_id") });
        },
    };
    if bits == 0 {
        return Err(ErrorReply { status: 400, message: DomainError::InvalidId.message() });
    }
    Ok(bits)
}

/// A deletion request: the caller must be an admin, then the path a non-nil UUID.
pub fn plan_delete_tenant_schema(admin: Result<u128, u16>, tenant_id: &str) -> (r: Result<
    DeleteTenantSchemaCommand,
    ErrorReply,
>)
    ensures
        admin is Err ==> (r matches Err(e) && auth_failure_text(admin->Err_0, e)),
        admin is Ok ==> match uuid_parse_outcome(tenant_id@) {
            Err(_) => r matches Err(e) && e.status == 400 && e.message@ == "Invalid tenant_id"@,
            Ok(bits) => if bits == 0 {
                r matches Err(e) && e.status == 400 && e.message@ == DomainError::InvalidId.text()
            } else {
                r matches Ok(c) && c.tenant_id@ == bits
            },
        },
{
    if let Err(status) = admin {
        return Err(auth_failure_reply(status));
    }
    let bits = match tenant_id_from_path(tenant_id) {
        Ok(b) => b,
        Err(e) => return Err(e),
    };
    match DeleteTenantSchemaCommand::new(bits) {
        Ok(c) => Ok(c),
        Err(error) => Err(ErrorReply { status: 400, message: error.message() }),
    }
}

/// A key rotation request: the caller must be an admin, then the path a non-nil UUID.
pub fn plan_rotate_tenant_keys(admin: Result<u128, u16>, tenant_id: &str) -> (r: Result<
    RotateTenantKeysCommand,
    ErrorReply,
>)
    ensures
        admin is Err ==> (r matches Err(e) && auth_failure_text(admin->Err_0, e)),
        admin is Ok ==> match uuid_parse_outcome(tenant_id@) {
            Err(_) => r matches Err(e) && e.status == 400 && e.message@ == "Invalid tenant_id"@,
            Ok(bits) => if bits == 0 {
                r matches Err(e) && e.status == 400 && e.message@ == DomainError::InvalidId.text()
            } else {
                r matches Ok(c) && c.tenant_id@ == bits
            },
        },
{
    if let Err(status) = admin {
        return Err(auth_failure_reply(status));
    }
    let bits = match tenant_id_from_path(tenant_id) {
        Ok(b) => b,
        Err(e) => return Err(e),
    };
    match RotateTenantKeysCommand::new(bits) {
        Ok(c) => Ok(c),
        Err(error) => Err(ErrorReply { status: 400, message: error.message() }),
    }
}

/// The reply to a finished creation: 201 with the new tenant's keys, or 500.
pub fn create_tenant_schema_reply(outcome: Result<CreatedTenantSchemaResult, DomainError>) -> (r:
    Result<CreateTenantSchemaResponseResource, ErrorReply>)
    ensures
        match outcome {
            Ok(res) => r matches Ok(body) && body.tenant_id@ == uuid_hyphenated_text(
                res.tenant_id@,
            ) && body.schema_name@ == res.schema_name@ && body.anon_key@ == res.anon_key@
                && body.secret_key@ == res.secret_key@,
            Err(_) => r matches Err(e) && e.status == 500 && e.message@
                == "Failed to create tenant schema"@,
        },
{
    match outcome {
        Ok(result) => Ok(
            CreateTenantSchemaResponseResource {
                tenant_id: uuid_hyphenated(result.tenant_id.value()),
                schema_name: result.schema_name,
                anon_key: result.anon_key,
                secret_key: result.secret_key,
            },
        ),
        Err(_) => Err(
            ErrorReply { status: 500, message: String::from_str("Failed to create tenant schema") },
        ),
    }
}

/// The reply to a finished deletion: 200 with a confirmation, or 500.
pub fn delete_tenant_schema_reply(outcome: Result<(), DomainError>) -> (r: Result<
    DeleteTenantSchemaResponseResource,
    ErrorReply,
>)
    ensures
        match outcome {
            Ok(_) => r matches Ok(body) && body.message@ == "Tenant schema deleted"@,
            Err(_) => r matches Err(e) && e.status == 500 && e.message@
                == "Failed to delete tenant schema"@,
        },
{
    match outcome {
        Ok(_) => Ok(
            DeleteTenantSchemaResponseResource { message: String::from_str("Tenant schema deleted") },
        ),
        Err(_) => Err(
            ErrorReply { status: 500, message: String::from_str("Failed to delete tenant schema") },
        ),
    }
}

/// The reply to a finished key rotation: 200 with the new keys, or 500.
pub fn rotate_tenant_keys_reply(outcome: Result<RotatedTenantKeysResult, DomainError>) -> (r:
    Result<RotateTenantKeysResponseResource, ErrorReply>)
    ensures
        match outcome {
            Ok(res) => r matches Ok(body) && body.tenant_id@ == uuid_hyphenated_text(
                res.tenant_id@,
            ) && body.anon_key@ == res.anon_key@ && body.secret_key@ == res.secret_key@,
            Err(_) => r matches Err(e) && e.status == 500 && e.message@
                == "Failed to rotate tenant keys"@,
        },
{
    match outcome {
        Ok(result) => Ok(
            RotateTenantKeysResponseResource {
                tenant_id: uuid_hyphenated(result.tenant_id.value()),
                anon_key: result.anon_key,
                secret_key: result.secret_key,
            },
        ),
        Err(_) => Err(
            ErrorReply { status: 500, message: String::from_str("Failed to rotate tenant keys") },
        ),
    }
}

} // verus!
