use auth_service::provisioning::application::acl::provisioning_facade_impl::ProvisioningFacadeImpl;
use auth_service::provisioning::application::command_services::provisioning_command_service_impl::{
    after_database_created, after_database_dropped, after_migrations, begin_deprovisioning,
    begin_provisioning, ProvisioningAction, ProvisioningCommandServiceImpl,
};
use auth_service::provisioning::domain::error::DomainError;
use auth_service::provisioning::domain::model::commands::deprovision_tenant_resources_command::DeprovisionTenantResourcesCommand;
use auth_service::provisioning::domain::model::commands::provision_tenant_resources_command::ProvisionTenantResourcesCommand;
use auth_service::provisioning::domain::model::value_objects::resource_name::{is_alphanumeric, ResourceName};
use auth_service::provisioning::infrastructure::persistence::postgres::postgres_schema_provisioner::{
    infrastructure_failure, url_with_path, ConnectRetry, PostgresSchemaProvisioner,
};
use auth_service::provisioning::infrastructure::persistence::sqlite::sqlite_database_provisioner::SqliteDatabaseProvisioner;

fn validation_text<T>(r: Result<T, DomainError>) -> String {
    match r {
        Err(DomainError::ValidationError(m)) => m,
        _ => panic!("expected a validation error"),
    }
}

#[test]
fn error_messages() {
    assert_eq!(DomainError::ValidationError("x".to_string()).message(), "Validation error: x");
    assert_eq!(DomainError::InfrastructureError("y".to_string()).message(), "Infrastructure error: y");
    match infrastructure_failure("Failed to create database", "exists") {
        DomainError::InfrastructureError(m) => assert_eq!(m, "Failed to create database: exists"),
        _ => panic!("expected an infrastructure error"),
    }
}

#[test]
fn resource_names() {
    assert_eq!(ResourceName::new("tenant_db-1".to_string()).unwrap().value(), "tenant_db-1");
    assert_eq!(ResourceName::new("Ünïcode9".to_string()).unwrap().value(), "Ünïcode9");
    assert_eq!(validation_text(ResourceName::new("  ".to_string())), "Resource name cannot be empty");
    assert_eq!(
        validation_text(ResourceName::new("bad name".to_string())),
        "Resource name must be alphanumeric, underscore or hyphen"
    );
    assert_eq!(
        validation_text(ResourceName::new(" padded".to_string())),
        "Resource name must be alphanumeric, underscore or hyphen"
    );
    assert!(is_alphanumeric('é'));
    assert!(is_alphanumeric('7'));
    assert!(!is_alphanumeric('-'));
}

#[test]
fn commands_validate_their_database_name() {
    let c = ProvisionTenantResourcesCommand::new("t1".to_string(), "db_1".to_string()).unwrap();
    assert_eq!(c.tenant_id, "t1");
    assert_eq!(c.database_name.value(), "db_1");
    assert!(ProvisionTenantResourcesCommand::new("t1".to_string(), "db;drop".to_string()).is_err());
    let d = DeprovisionTenantResourcesCommand::new("t2".to_string(), "db_2".to_string()).unwrap();
    assert_eq!(d.database_name.value(), "db_2");
    assert!(DeprovisionTenantResourcesCommand::new("t2".to_string(), "".to_string()).is_err());
}

#[test]
fn provisioning_steps() {
    let c = ProvisionTenantResourcesCommand::new("t".to_string(), "db_x".to_string()).unwrap();
    assert!(matches!(begin_provisioning(&c), ProvisioningAction::CreateDatabase { ref database_name } if database_name == "db_x"));
    assert!(matches!(after_database_created(&c, Ok(())), ProvisioningAction::RunMigrations { ref database_name } if database_name == "db_x"));
    let failed = after_database_created(&c, Err(DomainError::InfrastructureError("e".to_string())));
    assert!(matches!(failed, ProvisioningAction::Finish { outcome: Err(DomainError::InfrastructureError(ref m)) } if m == "e"));
    assert!(matches!(after_migrations(Ok(())), ProvisioningAction::Finish { outcome: Ok(()) }));
    let d = DeprovisionTenantResourcesCommand::new("t".to_string(), "db_x".to_string()).unwrap();
    assert!(matches!(begin_deprovisioning(&d), ProvisioningAction::DropDatabase { ref database_name } if database_name == "db_x"));
    assert!(matches!(after_database_dropped(Err(DomainError::ValidationError("v".to_string()))), ProvisioningAction::Finish { outcome: Err(_) }));
}

#[test]
fn services_hold_their_parts() {
    let s = ProvisioningCommandServiceImpl::new(PostgresSchemaProvisioner::new("postgres://h/db".to_string()));
    assert_eq!(s.schema_provisioner().base_connection_string(), "postgres://h/db");
    let f = ProvisioningFacadeImpl::new(s);
    assert_eq!(f.command_service().schema_provisioner().base_connection_string(), "postgres://h/db");
}

#[test]
fn postgres_statements_quote_names() {
    assert_eq!(PostgresSchemaProvisioner::quote_ident("a\"b"), "\"a\"\"b\"");
    assert_eq!(PostgresSchemaProvisioner::create_database_sql("db_1"), "CREATE DATABASE \"db_1\"");
    assert_eq!(PostgresSchemaProvisioner::drop_database_sql("db_1"), "DROP DATABASE IF EXISTS \"db_1\"");
    assert_eq!(
        PostgresSchemaProvisioner::terminate_connections_sql("o'db"),
        "SELECT pg_terminate_backend(pid) FROM pg_stat_activity WHERE datname = 'o''db' AND pid <> pg_backend_pid()"
    );
}

#[test]
fn tenant_connection_string_replaces_path() {
    assert_eq!(
        PostgresSchemaProvisioner::with_database_name("postgres://u:p@host:5432/main?sslmode=disable", "tenant_db")
            .unwrap(),
        "postgres://u:p@host:5432/tenant_db?sslmode=disable"
    );
    assert_eq!(url_with_path("http://h/a", "/b"), Ok("http://h/b".to_string()));
    match PostgresSchemaProvisioner::with_database_name("not a url", "x") {
        Err(DomainError::InfrastructureError(m)) => assert!(m.starts_with("Invalid DATABASE_URL: ")),
        _ => panic!("expected an infrastructure error"),
    }
}

#[test]
fn connect_retry_budget() {
    let mut r = ConnectRetry::new(2);
    assert!(r.may_attempt());
    r.record_failure("refused".to_string());
    assert!(r.may_attempt());
    r.record_failure("timeout".to_string());
    assert!(!r.may_attempt());
    assert_eq!(r.exhausted_message(), "Failed to connect to DB after 2 attempts: timeout");
    assert_eq!(ConnectRetry::new(0).exhausted_message(), "Failed to connect to DB after 0 attempts: unknown error");
}

#[test]
fn sqlite_files() {
    let p = SqliteDatabaseProvisioner::new("/data".to_string());
    assert_eq!(p.get_db_path("tenant_a"), "/data/tenant_a.db");
    assert_eq!(p.get_connection_string("tenant_a"), "sqlite:///data/tenant_a.db?mode=rwc");
}

#[test]
fn quoting_keeps_distinct_names_distinct() {
    let names = ["a", "a\"", "a\"\"", "\"a", "a\"b", "ab"];
    for (i, x) in names.iter().enumerate() {
        for (j, y) in names.iter().enumerate() {
            let same = PostgresSchemaProvisioner::quote_ident(x) == PostgresSchemaProvisioner::quote_ident(y);
            assert_eq!(same, i == j);
        }
    }
}
