pub mod acl;
pub mod command_services;
