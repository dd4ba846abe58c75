use auth_service::iam::tenancy::domain::error::DomainError;
use auth_service::iam::tenancy::domain::model::aggregates::membership::Membership;
use auth_service::iam::tenancy::domain::model::commands::create_tenant_schema_command::CreateTenantSchemaCommand;
use auth_service::iam::tenancy::domain::model::commands::delete_tenant_schema_command::DeleteTenantSchemaCommand;
use auth_service::iam::tenancy::domain::model::commands::rotate_tenant_keys_command::RotateTenantKeysCommand;
use auth_service::iam::tenancy::domain::model::commands::update_tenant_schema_configuration_command::UpdateTenantSchemaConfigurationCommand;
use auth_service::iam::tenancy::domain::model::queries::resolve_tenant_access_query::ResolveTenantAccessQuery;
use auth_service::iam::tenancy::domain::model::queries::resolve_tenant_oauth_configuration_query::ResolveTenantOAuthConfigurationQuery;
use auth_service::iam::tenancy::domain::model::queries::resolve_tenant_schema_query::ResolveTenantSchemaQuery;
use auth_service::iam::tenancy::domain::model::value_objects::google_oauth_tenant_configuration::GoogleOAuthTenantConfiguration;
use auth_service::iam::tenancy::domain::model::value_objects::membership_id::MembershipId;
use auth_service::iam::tenancy::domain::model::value_objects::membership_role::MembershipRole;
use auth_service::iam::tenancy::domain::model::value_objects::membership_status::MembershipStatus;
use auth_service::iam::tenancy::domain::model::value_objects::tenant_anon_key::TenantAnonKey;
use auth_service::iam::tenancy::domain::model::value_objects::tenant_frontend_url::TenantFrontendUrl;
use auth_service::iam::tenancy::domain::model::value_objects::tenant_id::TenantId;
use auth_service::iam::tenancy::domain::model::value_objects::tenant_name::TenantName;
use auth_service::iam::tenancy::domain::model::value_objects::tenant_schema_name::TenantSchemaName;
use auth_service::iam::tenancy::domain::model::value_objects::tenant_status::TenantStatus;
use auth_service::shared::domain::model::entities::auditable_model::AuditableModel;

#[test]
fn domain_error_messages() {
    assert_eq!(DomainError::InvalidTenantAnonKey.message(), "Invalid tenant anon key");
    assert_eq!(DomainError::InvalidTenantName.message(), "Invalid tenant name");
    assert_eq!(DomainError::InvalidRole.message(), "Invalid role");
    assert_eq!(DomainError::InvalidStatus.message(), "Invalid status");
    assert_eq!(DomainError::InvalidId.message(), "Invalid id");
    assert_eq!(DomainError::InvalidFrontendUrl.message(), "Invalid frontend url");
    assert_eq!(DomainError::internal("boom").message(), "Internal error: boom");
}

#[test]
fn tenant_name_is_trimmed_and_at_least_two_bytes() {
    assert_eq!(TenantName::new("  Acme Corp ".to_string()).unwrap().value(), "Acme Corp");
    assert!(matches!(TenantName::new(" a ".to_string()), Err(DomainError::InvalidTenantName)));
    assert!(matches!(TenantName::new("   ".to_string()), Err(DomainError::InvalidTenantName)));
    // one character of two bytes is long enough
    assert_eq!(TenantName::new("é".to_string()).unwrap().value(), "é");
}

#[test]
fn tenant_name_round_trip() {
    let n = TenantName::new(" Acme ".to_string()).unwrap();
    let again = TenantName::new(n.value().to_string()).unwrap();
    assert!(n == again);
}

#[test]
fn anon_key_needs_ten_bytes() {
    assert_eq!(TenantAnonKey::new(" pk_tenant_1 ".to_string()).unwrap().value(), "pk_tenant_1");
    assert!(matches!(TenantAnonKey::new("short".to_string()), Err(DomainError::InvalidTenantAnonKey)));
    assert!(TenantAnonKey::new("0123456789".to_string()).is_ok());
    assert!(TenantAnonKey::new("012345678".to_string()).is_err());
}

#[test]
fn frontend_url_needs_http_scheme() {
    assert_eq!(
        TenantFrontendUrl::new(" https://app.example.com ".to_string()).unwrap().value(),
        "https://app.example.com"
    );
    assert!(TenantFrontendUrl::new("http://x".to_string()).is_ok());
    assert!(matches!(
        TenantFrontendUrl::new("ftp://x".to_string()),
        Err(DomainError::InvalidFrontendUrl)
    ));
    assert!(TenantFrontendUrl::new("HTTPS://x".to_string()).is_err());
}

#[test]
fn schema_name_rules() {
    assert_eq!(TenantSchemaName::new(" Tenant_ABC ".to_string()).unwrap().value(), "tenant_abc");
    assert!(TenantSchemaName::new("tenant_".to_string()).is_ok());
    assert!(matches!(
        TenantSchemaName::new("public".to_string()),
        Err(DomainError::InvalidTenantName)
    ));
    assert!(TenantSchemaName::new("tenant-x".to_string()).is_err());
    assert!(TenantSchemaName::new(format!("tenant_{}", "a".repeat(56))).is_ok());
    assert!(TenantSchemaName::new(format!("tenant_{}", "a".repeat(57))).is_err());
}

#[test]
fn google_oauth_needs_both_parts() {
    let g = GoogleOAuthTenantConfiguration::new(" id ".to_string(), " secret ".to_string()).unwrap();
    assert_eq!(g.client_id(), "id");
    assert_eq!(g.client_secret(), "secret");
    match GoogleOAuthTenantConfiguration::new("id".to_string(), "  ".to_string()) {
        Err(DomainError::InternalError(m)) => assert_eq!(m, "Google OAuth configuration is required"),
        _ => panic!("expected an error"),
    }
    assert!(GoogleOAuthTenantConfiguration::new("".to_string(), "s".to_string()).is_err());
}

#[test]
fn ids_reject_nil() {
    assert!(matches!(TenantId::from_uuid(0), Err(DomainError::InvalidId)));
    assert_eq!(TenantId::from_uuid(7).unwrap().value(), 7);
    assert_ne!(TenantId::new().value(), 0);
    assert!(matches!(MembershipId::from_uuid(0), Err(DomainError::InvalidId)));
    assert_eq!(MembershipId::from_uuid(9).unwrap().value(), 9);
    assert_ne!(MembershipId::new().value(), 0);
}

#[test]
fn status_and_role_texts() {
    assert_eq!(TenantStatus::Active.as_str(), "active");
    assert_eq!(TenantStatus::Inactive.as_str(), "inactive");
    assert_eq!(TenantStatus::from_str(" ACTIVE ").unwrap(), TenantStatus::Active);
    assert_eq!(TenantStatus::from_str("Inactive").unwrap(), TenantStatus::Inactive);
    assert!(matches!(TenantStatus::from_str("paused"), Err(DomainError::InvalidStatus)));
    assert_eq!(MembershipRole::from_str("Admin").unwrap(), MembershipRole::Admin);
    assert_eq!(MembershipRole::from_str(" user").unwrap(), MembershipRole::User);
    assert!(matches!(MembershipRole::from_str("owner"), Err(DomainError::InvalidRole)));
    assert_eq!(MembershipStatus::from_str("ACTIVE").unwrap(), MembershipStatus::Active);
    assert!(matches!(MembershipStatus::from_str("gone"), Err(DomainError::InvalidStatus)));
    let parsed: TenantStatus = "inactive".parse().unwrap();
    assert_eq!(parsed, TenantStatus::Inactive);
}

#[test]
fn status_and_role_round_trips() {
    for s in [TenantStatus::Active, TenantStatus::Inactive] {
        assert_eq!(TenantStatus::from_str(s.as_str()).unwrap(), s);
    }
    for r in [MembershipRole::Admin, MembershipRole::User] {
        assert_eq!(MembershipRole::from_str(r.as_str()).unwrap(), r);
    }
    for s in [MembershipStatus::Active, MembershipStatus::Inactive] {
        assert_eq!(MembershipStatus::from_str(s.as_str()).unwrap(), s);
    }
}

#[test]
fn create_command_validates_in_order() {
    let c = CreateTenantSchemaCommand::new(" Acme ".to_string(), 42, " cid ".to_string(), "cs".to_string())
        .unwrap();
    assert_eq!(c.tenant_name.value(), "Acme");
    assert_eq!(c.admin_user_id, 42);
    assert_eq!(c.google_oauth_configuration.client_id(), "cid");
    let schema = c.schema_name.value();
    assert_eq!(schema.len(), 19);
    assert!(schema.starts_with("tenant_"));
    assert!(schema[7..].chars().all(|ch| ch.is_ascii_hexdigit() && !ch.is_ascii_uppercase()));
    assert!(matches!(
        CreateTenantSchemaCommand::new("a".to_string(), 1, "".to_string(), "".to_string()),
        Err(DomainError::InvalidTenantName)
    ));
    match CreateTenantSchemaCommand::new("Acme".to_string(), 1, "id".to_string(), " ".to_string()) {
        Err(DomainError::InternalError(m)) => assert_eq!(m, "Google OAuth configuration is required"),
        _ => panic!("expected an error"),
    }
}

#[test]
fn delete_and_rotate_commands_need_an_id() {
    assert!(matches!(DeleteTenantSchemaCommand::new(0), Err(DomainError::InvalidId)));
    assert_eq!(DeleteTenantSchemaCommand::new(5).unwrap().tenant_id.value(), 5);
    assert!(matches!(RotateTenantKeysCommand::new(0), Err(DomainError::InvalidId)));
    assert_eq!(RotateTenantKeysCommand::new(6).unwrap().tenant_id.value(), 6);
}

fn some(s: &str) -> Option<String> {
    Some(s.to_string())
}

fn internal_text(r: Result<UpdateTenantSchemaConfigurationCommand, DomainError>) -> String {
    match r {
        Err(DomainError::InternalError(m)) => m,
        _ => panic!("expected an internal error"),
    }
}

#[test]
fn update_command_errors_in_order() {
    assert!(matches!(
        UpdateTenantSchemaConfigurationCommand::new(0, some("x"), some("bad"), None, None),
        Err(DomainError::InvalidId)
    ));
    assert!(matches!(
        UpdateTenantSchemaConfigurationCommand::new(1, some("x"), some("bad"), None, None),
        Err(DomainError::InvalidTenantName)
    ));
    assert!(matches!(
        UpdateTenantSchemaConfigurationCommand::new(1, None, some("bad"), None, None),
        Err(DomainError::InvalidFrontendUrl)
    ));
    assert_eq!(
        internal_text(UpdateTenantSchemaConfigurationCommand::new(1, None, None, some("id"), None)),
        "Both google_client_id and google_client_secret are required together"
    );
    assert_eq!(
        internal_text(UpdateTenantSchemaConfigurationCommand::new(1, None, None, some("id"), some(" "))),
        "Google OAuth configuration is required"
    );
    assert_eq!(
        internal_text(UpdateTenantSchemaConfigurationCommand::new(1, None, None, None, None)),
        "At least one updatable field is required"
    );
}

#[test]
fn update_command_keeps_given_fields() {
    let c = UpdateTenantSchemaConfigurationCommand::new(3, None, some(" https://x.io "), some("a"), some("b"))
        .unwrap();
    assert_eq!(c.tenant_id.value(), 3);
    assert!(c.tenant_name.is_none());
    assert_eq!(c.frontend_url.as_ref().unwrap().value(), "https://x.io");
    assert_eq!(c.google_oauth_configuration.as_ref().unwrap().client_secret(), "b");
    let n = UpdateTenantSchemaConfigurationCommand::new(3, some("New Name"), None, None, None).unwrap();
    assert_eq!(n.tenant_name.unwrap().value(), "New Name");
}

#[test]
fn queries_need_a_valid_anon_key() {
    let q = ResolveTenantAccessQuery::new(8, " pk_tenant_abcdef ".to_string()).unwrap();
    assert_eq!(q.user_id, 8);
    assert_eq!(q.tenant_anon_key.value(), "pk_tenant_abcdef");
    assert!(matches!(
        ResolveTenantAccessQuery::new(8, "x".to_string()),
        Err(DomainError::InvalidTenantAnonKey)
    ));
    assert!(ResolveTenantSchemaQuery::new("pk_tenant_abcdef".to_string()).is_ok());
    assert!(ResolveTenantSchemaQuery::new("pk".to_string()).is_err());
    assert!(ResolveTenantOAuthConfigurationQuery::new("pk_tenant_abcdef".to_string()).is_ok());
    assert!(ResolveTenantOAuthConfigurationQuery::new("".to_string()).is_err());
}

#[test]
fn audit_stamps_start_equal() {
    let a = AuditableModel::new();
    assert_eq!(a.created_at, a.updated_at);
    assert!(a.created_at > 0);
}

#[test]
fn membership_keeps_its_parts() {
    let audit = AuditableModel::new();
    let m = Membership::new(
        MembershipId::from_uuid(1).unwrap(),
        TenantId::from_uuid(2).unwrap(),
        3,
        MembershipRole::Admin,
        MembershipStatus::Active,
        audit,
    );
    assert_eq!(m.id().value(), 1);
    assert_eq!(m.tenant_id().value(), 2);
    assert_eq!(m.user_id(), 3);
    assert_eq!(*m.role(), MembershipRole::Admin);
    assert_eq!(*m.status(), MembershipStatus::Active);
    assert_eq!(m.audit().created_at, audit.created_at);
}
