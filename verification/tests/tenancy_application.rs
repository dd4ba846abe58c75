use auth_service::iam::tenancy::application::acl::tenancy_facade_impl::{
    oauth_context_acl, schema_context_acl,
};
use auth_service::iam::tenancy::application::command_services::tenancy_command_service_impl::{
    generate_anon_key, generate_secret_key, hash_secret_key, plan_configuration_update,
    plan_key_rotation, plan_tenant_creation, repository_outcome, require_existing_tenant,
    CreateTenantAction, CreateTenantEvent, CreateTenantWorkflow,
};
use auth_service::iam::tenancy::application::command_services::tenant_maintenance_workflows::{
    DeleteTenantAction, DeleteTenantEvent, DeleteTenantWorkflow, RotateTenantKeysAction,
    RotateTenantKeysEvent, RotateTenantKeysWorkflow, UpdateTenantAction, UpdateTenantEvent,
    UpdateTenantWorkflow,
};
use auth_service::iam::tenancy::domain::model::commands::delete_tenant_schema_command::DeleteTenantSchemaCommand;
use auth_service::iam::tenancy::application::query_services::tenancy_query_service_impl::{
    resolve_tenant_oauth_configuration, resolve_tenant_schema,
};
use auth_service::iam::tenancy::domain::error::DomainError;
use auth_service::iam::tenancy::domain::model::aggregates::tenant::{Tenant, TenantConstructionData};
use auth_service::iam::tenancy::domain::model::commands::create_tenant_schema_command::CreateTenantSchemaCommand;
use auth_service::iam::tenancy::domain::model::commands::rotate_tenant_keys_command::RotateTenantKeysCommand;
use auth_service::iam::tenancy::domain::model::commands::update_tenant_schema_configuration_command::UpdateTenantSchemaConfigurationCommand;
use auth_service::iam::tenancy::domain::model::value_objects::google_oauth_tenant_configuration::GoogleOAuthTenantConfiguration;
use auth_service::iam::tenancy::domain::model::value_objects::tenant_anon_key::TenantAnonKey;
use auth_service::iam::tenancy::domain::model::value_objects::tenant_frontend_url::TenantFrontendUrl;
use auth_service::iam::tenancy::domain::model::value_objects::tenant_id::TenantId;
use auth_service::iam::tenancy::domain::model::value_objects::tenant_name::TenantName;
use auth_service::iam::tenancy::domain::model::value_objects::tenant_schema_name::TenantSchemaName;
use auth_service::iam::tenancy::domain::model::value_objects::tenant_status::TenantStatus;
use auth_service::iam::tenancy::domain::services::tenancy_command_service::CreatedTenantSchemaResult;
use auth_service::iam::tenancy::infrastructure::persistence::postgres::repositories::membership_repository_impl::{
    membership_from_record, MembershipRecord,
};
use auth_service::iam::tenancy::infrastructure::persistence::postgres::repositories::tenant_repository_impl::{
    to_active_model, to_domain, TenantRecord,
};
use auth_service::iam::tenancy::infrastructure::services::postgres_tenant_schema_service::{
    create_schema_sql, create_users_table_sql, drop_schema_sql,
};
use auth_service::iam::tenancy::domain::model::value_objects::membership_role::MembershipRole;
use auth_service::iam::tenancy::domain::model::value_objects::membership_status::MembershipStatus;
use auth_service::shared::domain::model::entities::auditable_model::AuditableModel;

fn tenant(status: TenantStatus, google: bool) -> Tenant {
    Tenant::new(TenantConstructionData {
        id: TenantId::from_uuid(77).unwrap(),
        name: TenantName::new("Acme".to_string()).unwrap(),
        schema_name: TenantSchemaName::new("tenant_abc".to_string()).unwrap(),
        admin_user_id: 5,
        anon_key: TenantAnonKey::new("pk_tenant_0123456789".to_string()).unwrap(),
        frontend_url: TenantFrontendUrl::new("https://acme.io".to_string()).unwrap(),
        secret_key_hash: "hash".to_string(),
        google_oauth_configuration: if google {
            Some(GoogleOAuthTenantConfiguration::new("gid".to_string(), "gsecret".to_string()).unwrap())
        } else {
            None
        },
        status,
        audit: AuditableModel { created_at: 10, updated_at: 20 },
    })
}

fn is_lower_hex(s: &str) -> bool {
    s.chars().all(|c| c.is_ascii_digit() || ('a'..='f').contains(&c))
}

#[test]
fn generated_keys_have_their_shape() {
    let anon = generate_anon_key();
    assert_eq!(anon.len(), 30);
    assert!(anon.starts_with("pk_tenant_"));
    assert!(is_lower_hex(&anon[10..]));
    assert!(TenantAnonKey::new(anon.clone()).is_ok());
    let secret = generate_secret_key();
    assert_eq!(secret.len(), 74);
    assert!(secret.starts_with("sk_tenant_"));
    assert!(is_lower_hex(&secret[10..]));
    assert_ne!(generate_secret_key(), secret);
}

#[test]
fn secret_hash_is_sha256_hex() {
    assert_eq!(
        hash_secret_key("abc"),
        "ba7816bf8f01cfea414140de5dae2223b00361a396177a9cb410ff61f20015ad"
    );
    assert_ne!(hash_secret_key("abc"), "abc");
}

#[test]
fn tenant_creation_plan() {
    let command = CreateTenantSchemaCommand::new("Acme".to_string(), 9, "gid".to_string(), "gs".to_string())
        .unwrap();
    let schema = command.schema_name.value().to_string();
    let url = TenantFrontendUrl::new("https://acme.io".to_string()).unwrap();
    let plan = plan_tenant_creation(command, url).unwrap();
    let t = &plan.tenant;
    assert_eq!(t.id().value(), plan.result.tenant_id.value());
    assert_ne!(t.id().value(), 0);
    assert_eq!(t.name().value(), "Acme");
    assert_eq!(t.schema_name().value(), schema);
    assert_eq!(plan.result.schema_name, schema);
    assert_eq!(t.admin_user_id(), 9);
    assert_eq!(t.anon_key().value(), plan.result.anon_key);
    assert_eq!(t.frontend_url().value(), "https://acme.io");
    assert_eq!(t.secret_key_hash(), hash_secret_key(&plan.result.secret_key));
    assert_eq!(t.google_oauth_configuration().unwrap().client_id(), "gid");
    assert_eq!(*t.status(), TenantStatus::Active);
    assert_eq!(t.audit().created_at, t.audit().updated_at);
}

fn created_result() -> CreatedTenantSchemaResult {
    CreatedTenantSchemaResult {
        tenant_id: TenantId::from_uuid(1).unwrap(),
        schema_name: "tenant_abc".to_string(),
        anon_key: "pk_tenant_x".to_string(),
        secret_key: "sk_tenant_y".to_string(),
    }
}

#[test]
fn create_workflow_success() {
    let (w, a) = CreateTenantWorkflow::start(created_result());
    assert!(matches!(a, CreateTenantAction::CreateSchema { ref schema_name } if schema_name == "tenant_abc"));
    assert!(w.expects(&CreateTenantEvent::SchemaCreated { created: Ok(()) }));
    assert!(!w.expects(&CreateTenantEvent::TenantSaved { saved: Ok(()) }));
    assert!(!w.expects(&CreateTenantEvent::SchemaDropped));
    let (w, a) = w.step(CreateTenantEvent::SchemaCreated { created: Ok(()) });
    assert!(matches!(a, CreateTenantAction::SaveTenant));
    let (_, a) = w.step(CreateTenantEvent::TenantSaved { saved: Ok(()) });
    match a {
        CreateTenantAction::Finish { outcome: Ok(r) } => {
            assert_eq!(r.tenant_id.value(), 1);
            assert_eq!(r.schema_name, "tenant_abc");
            assert_eq!(r.anon_key, "pk_tenant_x");
            assert_eq!(r.secret_key, "sk_tenant_y");
        }
        _ => panic!("expected success"),
    }
}

#[test]
fn create_workflow_drops_schema_when_save_fails() {
    let (w, _) = CreateTenantWorkflow::start(created_result());
    let (w, _) = w.step(CreateTenantEvent::SchemaCreated { created: Ok(()) });
    let (w, a) = w.step(CreateTenantEvent::TenantSaved { saved: Err("duplicate".to_string()) });
    assert!(matches!(a, CreateTenantAction::DropSchema { ref schema_name } if schema_name == "tenant_abc"));
    let (_, a) = w.step(CreateTenantEvent::SchemaDropped);
    match a {
        CreateTenantAction::Finish { outcome: Err(DomainError::InternalError(m)) } => assert_eq!(m, "duplicate"),
        _ => panic!("expected the save error"),
    }
}

#[test]
fn create_workflow_stops_when_schema_fails() {
    let (w, _) = CreateTenantWorkflow::start(created_result());
    let (_, a) = w.step(CreateTenantEvent::SchemaCreated { created: Err(DomainError::internal("no db")) });
    match a {
        CreateTenantAction::Finish { outcome: Err(DomainError::InternalError(m)) } => assert_eq!(m, "no db"),
        _ => panic!("expected the schema error"),
    }
}

#[test]
fn existing_tenant_lookup() {
    assert!(require_existing_tenant(Ok(Some(tenant(TenantStatus::Active, true)))).is_ok());
    match require_existing_tenant(Ok(None)) {
        Err(DomainError::InternalError(m)) => assert_eq!(m, "Tenant not found"),
        _ => panic!("expected not found"),
    }
    match require_existing_tenant(Err("db down".to_string())) {
        Err(DomainError::InternalError(m)) => assert_eq!(m, "db down"),
        _ => panic!("expected the lookup error"),
    }
    assert!(repository_outcome(Ok(())).is_ok());
    assert!(matches!(repository_outcome(Err("x".to_string())), Err(DomainError::InternalError(m)) if m == "x"));
}

#[test]
fn key_rotation_plan() {
    let plan = plan_key_rotation(RotateTenantKeysCommand::new(11).unwrap()).unwrap();
    assert_eq!(plan.tenant_id.value(), 11);
    assert_eq!(plan.result.tenant_id.value(), 11);
    assert_eq!(plan.anon_key.value(), plan.result.anon_key);
    assert!(plan.result.anon_key.starts_with("pk_tenant_"));
    assert_eq!(plan.secret_key_hash, hash_secret_key(&plan.result.secret_key));
}

#[test]
fn configuration_update_plan() {
    let c = UpdateTenantSchemaConfigurationCommand::new(
        4,
        Some(" New ".to_string()),
        None,
        Some("i".to_string()),
        Some("s".to_string()),
    )
    .unwrap();
    let u = plan_configuration_update(c);
    assert_eq!(u.tenant_id.value(), 4);
    assert_eq!(u.tenant_name, Some("New".to_string()));
    assert_eq!(u.frontend_url, None);
    assert_eq!(u.google_client_id, Some("i".to_string()));
    assert_eq!(u.google_client_secret, Some("s".to_string()));
}

#[test]
fn schema_resolution_only_for_active_tenants() {
    let c = resolve_tenant_schema(Ok(Some(tenant(TenantStatus::Active, false)))).unwrap().unwrap();
    assert_eq!(c.tenant_id.value(), 77);
    assert_eq!(c.schema_name, "tenant_abc");
    assert!(resolve_tenant_schema(Ok(Some(tenant(TenantStatus::Inactive, false)))).unwrap().is_none());
    assert!(resolve_tenant_schema(Ok(None)).unwrap().is_none());
    assert!(matches!(resolve_tenant_schema(Err("e".to_string())), Err(DomainError::InternalError(m)) if m == "e"));
}

#[test]
fn oauth_resolution_needs_active_tenant_with_client() {
    let c = resolve_tenant_oauth_configuration(Ok(Some(tenant(TenantStatus::Active, true))))
        .unwrap()
        .unwrap();
    assert_eq!(c.google_client_id, "gid");
    assert_eq!(c.google_client_secret, "gsecret");
    assert_eq!(c.schema_name, "tenant_abc");
    assert!(resolve_tenant_oauth_configuration(Ok(Some(tenant(TenantStatus::Active, false))))
        .unwrap()
        .is_none());
    assert!(resolve_tenant_oauth_configuration(Ok(Some(tenant(TenantStatus::Inactive, true))))
        .unwrap()
        .is_none());
    let acl = oauth_context_acl(Some(c), "https://cb".to_string()).unwrap();
    assert_eq!(acl.tenant_id, 77);
    assert_eq!(acl.google_redirect_uri, "https://cb");
    assert!(oauth_context_acl(None, "x".to_string()).is_none());
    let s = resolve_tenant_schema(Ok(Some(tenant(TenantStatus::Active, true)))).unwrap();
    let sa = schema_context_acl(s).unwrap();
    assert_eq!(sa.tenant_id, 77);
    assert_eq!(sa.schema_name, "tenant_abc");
    assert!(schema_context_acl(None).is_none());
}

#[test]
fn tenant_record_round_trip() {
    let t = tenant(TenantStatus::Inactive, true);
    let row = to_active_model(&t);
    assert_eq!(row.id, 77);
    assert_eq!(row.status, "inactive");
    assert_eq!(row.google_client_id, Some("gid".to_string()));
    assert_eq!(row.created_at, 10);
    let back = to_domain(row.clone()).unwrap();
    let row2 = to_active_model(&back);
    assert_eq!(row2.name, row.name);
    assert_eq!(row2.schema_name, row.schema_name);
    assert_eq!(row2.anon_key, row.anon_key);
    assert_eq!(row2.frontend_url, row.frontend_url);
    assert_eq!(row2.secret_key_hash, row.secret_key_hash);
    assert_eq!(row2.google_client_secret, row.google_client_secret);
    assert_eq!(row2.status, row.status);
    assert_eq!(row2.updated_at, 20);
}

fn row() -> TenantRecord {
    TenantRecord {
        id: 1,
        name: "Acme".to_string(),
        schema_name: " TENANT_ABC ".to_string(),
        admin_user_id: 2,
        anon_key: "pk_tenant_0123456789".to_string(),
        frontend_url: "https://a.io".to_string(),
        secret_key_hash: "h".to_string(),
        google_client_id: None,
        google_client_secret: Some("orphan".to_string()),
        status: "ACTIVE".to_string(),
        created_at: 1,
        updated_at: 2,
    }
}

#[test]
fn tenant_from_row_normalizes_and_validates() {
    let t = to_domain(row()).unwrap();
    assert_eq!(t.schema_name().value(), "tenant_abc");
    assert_eq!(*t.status(), TenantStatus::Active);
    assert!(t.google_oauth_configuration().is_none());
    let mut bad = row();
    bad.id = 0;
    assert!(matches!(to_domain(bad), Err(DomainError::InvalidId)));
    let mut bad = row();
    bad.status = "paused".to_string();
    assert!(matches!(to_domain(bad), Err(DomainError::InvalidStatus)));
    let mut bad = row();
    bad.frontend_url = "a.io".to_string();
    assert!(matches!(to_domain(bad), Err(DomainError::InvalidFrontendUrl)));
    let mut bad = row();
    bad.anon_key = "pk".to_string();
    assert!(matches!(to_domain(bad), Err(DomainError::InvalidTenantAnonKey)));
    let mut bad = row();
    bad.google_client_id = Some(" ".to_string());
    bad.id = 0;
    assert!(matches!(to_domain(bad), Err(DomainError::InternalError(_))));
}

#[test]
fn membership_from_row() {
    let rec = MembershipRecord {
        id: 1,
        tenant_id: 2,
        user_id: 3,
        role: " Admin".to_string(),
        status: "active".to_string(),
        created_at: 4,
        updated_at: 5,
    };
    let m = membership_from_record(rec.clone()).unwrap();
    assert_eq!(*m.role(), MembershipRole::Admin);
    assert_eq!(*m.status(), MembershipStatus::Active);
    assert_eq!(m.audit().updated_at, 5);
    let mut bad = rec.clone();
    bad.tenant_id = 0;
    assert!(matches!(membership_from_record(bad), Err(DomainError::InvalidId)));
    let mut bad = rec.clone();
    bad.role = "owner".to_string();
    bad.status = "x".to_string();
    assert!(matches!(membership_from_record(bad), Err(DomainError::InvalidRole)));
    let mut bad = rec;
    bad.status = "x".to_string();
    assert!(matches!(membership_from_record(bad), Err(DomainError::InvalidStatus)));
}

#[test]
fn tenant_schema_statements() {
    assert_eq!(create_schema_sql("tenant_a"), "CREATE SCHEMA IF NOT EXISTS \"tenant_a\"");
    assert_eq!(drop_schema_sql("tenant_a"), "DROP SCHEMA IF EXISTS \"tenant_a\" CASCADE");
    assert!(create_users_table_sql("tenant_a").contains("\"tenant_a\".users"));
}

#[test]
fn delete_workflow_deletes_only_after_drop() {
    let (w, a) = DeleteTenantWorkflow::start(DeleteTenantSchemaCommand::new(77).unwrap());
    assert!(matches!(a, DeleteTenantAction::FindTenant { tenant_id } if tenant_id.value() == 77));
    let (w, a) = w.step(DeleteTenantEvent::TenantFound { found: Ok(Some(tenant(TenantStatus::Active, false))) });
    assert!(matches!(a, DeleteTenantAction::DropSchema { ref schema_name } if schema_name == "tenant_abc"));
    assert!(!w.expects(&DeleteTenantEvent::TenantDeleted { deleted: Ok(()) }));
    let (w, a) = w.step(DeleteTenantEvent::SchemaDropped { dropped: Ok(()) });
    assert!(matches!(a, DeleteTenantAction::DeleteTenant { tenant_id } if tenant_id.value() == 77));
    let (_, a) = w.step(DeleteTenantEvent::TenantDeleted { deleted: Ok(()) });
    assert!(matches!(a, DeleteTenantAction::Finish { outcome: Ok(()) }));

    let (w, _) = DeleteTenantWorkflow::start(DeleteTenantSchemaCommand::new(77).unwrap());
    let (w, _) = w.step(DeleteTenantEvent::TenantFound { found: Ok(Some(tenant(TenantStatus::Active, false))) });
    let (_, a) = w.step(DeleteTenantEvent::SchemaDropped { dropped: Err(DomainError::internal("busy")) });
    assert!(matches!(a, DeleteTenantAction::Finish { outcome: Err(DomainError::InternalError(ref m)) } if m == "busy"));

    let (w, _) = DeleteTenantWorkflow::start(DeleteTenantSchemaCommand::new(77).unwrap());
    let (_, a) = w.step(DeleteTenantEvent::TenantFound { found: Ok(None) });
    assert!(matches!(a, DeleteTenantAction::Finish { outcome: Err(DomainError::InternalError(ref m)) } if m == "Tenant not found"));
}

#[test]
fn rotate_workflow_stores_then_hands_back_the_same_keys() {
    let (w, _) = RotateTenantKeysWorkflow::start(RotateTenantKeysCommand::new(77).unwrap());
    let (w, a) = w.step(RotateTenantKeysEvent::TenantFound { found: Ok(Some(tenant(TenantStatus::Active, false))) });
    let (stored_key, stored_hash) = match a {
        RotateTenantKeysAction::StoreKeys { tenant_id, anon_key, secret_key_hash } => {
            assert_eq!(tenant_id.value(), 77);
            (anon_key.value().to_string(), secret_key_hash)
        }
        _ => panic!("expected the keys to store"),
    };
    let (_, a) = w.step(RotateTenantKeysEvent::KeysStored { stored: Ok(()) });
    match a {
        RotateTenantKeysAction::Finish { outcome: Ok(r) } => {
            assert_eq!(r.tenant_id.value(), 77);
            assert_eq!(r.anon_key, stored_key);
            assert_eq!(hash_secret_key(&r.secret_key), stored_hash);
        }
        _ => panic!("expected the new keys"),
    }
    let (w, _) = RotateTenantKeysWorkflow::start(RotateTenantKeysCommand::new(77).unwrap());
    let (_, a) = w.step(RotateTenantKeysEvent::TenantFound { found: Err("db".to_string()) });
    assert!(matches!(a, RotateTenantKeysAction::Finish { outcome: Err(DomainError::InternalError(ref m)) } if m == "db"));
}

#[test]
fn update_workflow_writes_the_command() {
    let c = UpdateTenantSchemaConfigurationCommand::new(77, None, Some("https://n.io".to_string()), None, None).unwrap();
    let (w, a) = UpdateTenantWorkflow::start(c);
    assert!(matches!(a, UpdateTenantAction::FindTenant { tenant_id } if tenant_id.value() == 77));
    let (w, a) = w.step(UpdateTenantEvent::TenantFound { found: Ok(Some(tenant(TenantStatus::Active, false))) });
    match a {
        UpdateTenantAction::Write { update } => {
            assert_eq!(update.frontend_url, Some("https://n.io".to_string()));
            assert_eq!(update.tenant_name, None);
        }
        _ => panic!("expected a write"),
    }
    let (_, a) = w.step(UpdateTenantEvent::Written { written: Err("gone".to_string()) });
    assert!(matches!(a, UpdateTenantAction::Finish { outcome: Err(DomainError::InternalError(ref m)) } if m == "gone"));
}

#[test]
fn audit_record_at_an_instant() {
    let a = AuditableModel::at(1_700_000_000_000_000);
    assert_eq!(a.created_at, 1_700_000_000_000_000);
    assert_eq!(a.updated_at, 1_700_000_000_000_000);
}
