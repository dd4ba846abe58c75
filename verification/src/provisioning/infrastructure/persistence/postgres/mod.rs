pub mod postgres_schema_provisioner;
