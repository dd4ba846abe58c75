use auth_service::iam::tenancy::domain::error::DomainError;
use auth_service::iam::tenancy::domain::model::value_objects::tenant_id::TenantId;
use auth_service::iam::tenancy::domain::services::tenancy_command_service::{
    CreatedTenantSchemaResult, RotatedTenantKeysResult,
};
use auth_service::iam::tenancy::interfaces::cli::resources::create_tenant_schema_cli_resource::CreateTenantSchemaCliResource;
use auth_service::iam::tenancy::interfaces::cli::resources::delete_tenant_schema_cli_resource::DeleteTenantSchemaCliResource;
use auth_service::iam::tenancy::interfaces::cli::resources::rotate_tenant_keys_cli_resource::{
    tenant_id_from_args, RotateTenantKeysCliResource,
};
use auth_service::iam::tenancy::interfaces::cli::resources::update_tenant_schema_configuration_cli_resource::UpdateTenantSchemaConfigurationCliResource;
use auth_service::iam::tenancy::interfaces::rest::controllers::tenancy_controller::{
    auth_failure_reply, create_tenant_schema_reply, delete_tenant_schema_reply,
    parse_bearer_token, plan_create_tenant_schema, plan_delete_tenant_schema,
    plan_rotate_tenant_keys, require_admin_role, rotate_tenant_keys_reply, tenant_id_from_path,
};
use auth_service::iam::tenancy::interfaces::rest::resources::create_tenant_schema_resource::CreateTenantSchemaResource;

const ID_TEXT: &str = "550e8400-e29b-41d4-a716-446655440000";
const ID_BITS: u128 = 0x550e8400_e29b_41d4_a716_446655440000;
const NIL_TEXT: &str = "00000000-0000-0000-0000-000000000000";

fn strings(items: &[&str]) -> Vec<String> {
    items.iter().map(|s| s.to_string()).collect()
}

#[test]
fn bearer_token_parsing() {
    assert_eq!(parse_bearer_token(Some("Bearer abc.def")), Ok("abc.def".to_string()));
    assert_eq!(parse_bearer_token(Some("bearer xyz")), Ok("xyz".to_string()));
    assert_eq!(parse_bearer_token(Some("Basic abc")), Err(401));
    assert_eq!(parse_bearer_token(Some("Bearer    ")), Err(401));
    assert_eq!(parse_bearer_token(None), Err(401));
}

#[test]
fn admin_role_required() {
    assert_eq!(require_admin_role("admin", 7), Ok(7));
    assert_eq!(require_admin_role("user", 7), Err(403));
    assert_eq!(require_admin_role("Admin", 7), Err(403));
    let r = auth_failure_reply(403);
    assert_eq!((r.status, r.message.as_str()), (403, "Admin role required"));
    let r = auth_failure_reply(401);
    assert_eq!((r.status, r.message.as_str()), (401, "Invalid or missing token"));
}

fn resource(name: &str, id: &str, secret: &str) -> CreateTenantSchemaResource {
    CreateTenantSchemaResource {
        tenant_name: name.to_string(),
        google_client_id: id.to_string(),
        google_client_secret: secret.to_string(),
        frontend_url: "https://acme.io".to_string(),
    }
}

#[test]
fn create_request_checks_in_order() {
    let r = plan_create_tenant_schema(Err("tenant_name: too short".to_string()), Err(401), resource("a", "", ""));
    let e = r.unwrap_err();
    assert_eq!((e.status, e.message.as_str()), (400, "tenant_name: too short"));
    let e = plan_create_tenant_schema(Ok(()), Err(403), resource("a", "", "")).unwrap_err();
    assert_eq!(e.status, 403);
    let e = plan_create_tenant_schema(Ok(()), Err(401), resource("Acme", "i", "s")).unwrap_err();
    assert_eq!((e.status, e.message.as_str()), (401, "Invalid or missing token"));
    let e = plan_create_tenant_schema(Ok(()), Ok(3), resource("Acme", "i", " ")).unwrap_err();
    assert_eq!((e.status, e.message.as_str()), (400, "Internal error: Google OAuth configuration is required"));
    let e = plan_create_tenant_schema(Ok(()), Ok(3), resource("A", "i", "s")).unwrap_err();
    assert_eq!((e.status, e.message.as_str()), (400, "Invalid tenant name"));
    let (c, url) = plan_create_tenant_schema(Ok(()), Ok(3), resource(" Acme ", "i", "s")).unwrap();
    assert_eq!(c.admin_user_id, 3);
    assert_eq!(c.tenant_name.value(), "Acme");
    assert_eq!(url.value(), "https://acme.io");
    let mut bad_url = resource("Acme", "i", "s");
    bad_url.frontend_url = "ftp://acme.io".to_string();
    let e = plan_create_tenant_schema(Ok(()), Ok(3), bad_url).unwrap_err();
    assert_eq!((e.status, e.message.as_str()), (400, "Invalid frontend url"));
}

#[test]
fn path_ids() {
    assert_eq!(tenant_id_from_path(ID_TEXT).unwrap(), ID_BITS);
    let e = tenant_id_from_path("zzz").unwrap_err();
    assert_eq!((e.status, e.message.as_str()), (400, "Invalid tenant_id"));
    let e = tenant_id_from_path(NIL_TEXT).unwrap_err();
    assert_eq!((e.status, e.message.as_str()), (400, "Invalid id"));
}

#[test]
fn delete_and_rotate_requests() {
    assert_eq!(plan_delete_tenant_schema(Err(403), ID_TEXT).unwrap_err().status, 403);
    assert_eq!(plan_delete_tenant_schema(Err(401), "zzz").unwrap_err().status, 401);
    assert_eq!(plan_delete_tenant_schema(Ok(1), "zzz").unwrap_err().status, 400);
    assert_eq!(plan_delete_tenant_schema(Ok(1), NIL_TEXT).unwrap_err().status, 400);
    assert_eq!(plan_delete_tenant_schema(Ok(1), ID_TEXT).unwrap().tenant_id.value(), ID_BITS);
    assert_eq!(plan_rotate_tenant_keys(Err(500), ID_TEXT).unwrap_err().status, 401);
    assert_eq!(plan_rotate_tenant_keys(Ok(1), "x").unwrap_err().status, 400);
    assert_eq!(plan_rotate_tenant_keys(Ok(1), ID_TEXT).unwrap().tenant_id.value(), ID_BITS);
    let e = plan_delete_tenant_schema(Err(403), "zzz").unwrap_err();
    assert_eq!((e.status, e.message.as_str()), (403, "Admin role required"));
    let e = plan_rotate_tenant_keys(Err(401), "zzz").unwrap_err();
    assert_eq!((e.status, e.message.as_str()), (401, "Invalid or missing token"));
    let e = plan_rotate_tenant_keys(Ok(1), "zzz").unwrap_err();
    assert_eq!((e.status, e.message.as_str()), (400, "Invalid tenant_id"));
    let e = plan_delete_tenant_schema(Ok(1), NIL_TEXT).unwrap_err();
    assert_eq!((e.status, e.message.as_str()), (400, "Invalid id"));
}

#[test]
fn replies_to_outcomes() {
    let ok = create_tenant_schema_reply(Ok(CreatedTenantSchemaResult {
        tenant_id: TenantId::from_uuid(ID_BITS).unwrap(),
        schema_name: "tenant_abc".to_string(),
        anon_key: "pk".to_string(),
        secret_key: "sk".to_string(),
    }))
    .unwrap();
    assert_eq!(ok.tenant_id, ID_TEXT);
    assert_eq!(ok.schema_name, "tenant_abc");
    assert_eq!(ok.secret_key, "sk");
    let e = create_tenant_schema_reply(Err(DomainError::InvalidId)).unwrap_err();
    assert_eq!((e.status, e.message.as_str()), (500, "Failed to create tenant schema"));
    assert_eq!(delete_tenant_schema_reply(Ok(())).unwrap().message, "Tenant schema deleted");
    let e = delete_tenant_schema_reply(Err(DomainError::internal("x"))).unwrap_err();
    assert_eq!((e.status, e.message.as_str()), (500, "Failed to delete tenant schema"));
    let r = rotate_tenant_keys_reply(Ok(RotatedTenantKeysResult {
        tenant_id: TenantId::from_uuid(ID_BITS).unwrap(),
        anon_key: "pk2".to_string(),
        secret_key: "sk2".to_string(),
    }))
    .unwrap();
    assert_eq!((r.tenant_id.as_str(), r.anon_key.as_str()), (ID_TEXT, "pk2"));
    let e = rotate_tenant_keys_reply(Err(DomainError::InvalidId)).unwrap_err();
    assert_eq!((e.status, e.message.as_str()), (500, "Failed to rotate tenant keys"));
}

#[test]
fn cli_create_resource() {
    let args = strings(&["--name", "Acme", "--google-client-id", "gid"]);
    let r = CreateTenantSchemaCliResource::from_args(&args).unwrap();
    assert_eq!(r.name, "Acme");
    assert_eq!(r.google_client_id, Some("gid".to_string()));
    assert_eq!(r.google_client_secret, None);
    assert_eq!(r.frontend_url, None);
    let e = CreateTenantSchemaCliResource::from_args(&strings(&["--google-client-id", "gid"])).unwrap_err();
    assert_eq!(e, "Missing required flag: --name");
}

#[test]
fn cli_tenant_id_resources() {
    let args = strings(&["--tenant-id", ID_TEXT]);
    assert_eq!(tenant_id_from_args(&args), Ok(ID_BITS));
    assert_eq!(DeleteTenantSchemaCliResource::from_args(&args).unwrap().tenant_id, ID_BITS);
    assert_eq!(RotateTenantKeysCliResource::from_args(&args).unwrap().tenant_id, ID_BITS);
    assert_eq!(
        RotateTenantKeysCliResource::from_args(&[]).unwrap_err(),
        "Missing required flag: --tenant-id"
    );
    let e = DeleteTenantSchemaCliResource::from_args(&strings(&["--tenant-id", "nope"])).unwrap_err();
    assert!(e.starts_with("Invalid --tenant-id: "));
    assert!(e.len() > "Invalid --tenant-id: ".len());
}

#[test]
fn cli_update_resource() {
    let args = strings(&["--tenant-id", ID_TEXT, "--frontend-url", "https://x.io", "--google-client-secret", "s"]);
    let r = UpdateTenantSchemaConfigurationCliResource::from_args(&args).unwrap();
    assert_eq!(r.tenant_id, ID_BITS);
    assert_eq!(r.frontend_url, Some("https://x.io".to_string()));
    assert_eq!(r.google_client_id, None);
    assert_eq!(r.google_client_secret, Some("s".to_string()));
    assert!(UpdateTenantSchemaConfigurationCliResource::from_args(&strings(&["--frontend-url", "x"])).is_err());
}
