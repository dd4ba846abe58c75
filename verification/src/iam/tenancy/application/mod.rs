pub mod acl;
pub mod command_services;
pub mod query_services;
