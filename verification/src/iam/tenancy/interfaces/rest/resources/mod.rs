pub mod create_tenant_schema_resource;
pub mod delete_tenant_schema_resource;
pub mod resolve_tenant_access_resource;
pub mod rotate_tenant_keys_resource;
