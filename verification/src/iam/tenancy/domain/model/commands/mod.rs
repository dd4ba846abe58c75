pub mod create_tenant_schema_command;
pub mod delete_tenant_schema_command;
pub mod rotate_tenant_keys_command;
pub mod update_tenant_schema_configuration_command;
