pub mod sqlite_database_provisioner;
