pub mod postgres_tenant_schema_service;
