pub mod tenancy_command_service;
pub mod tenancy_query_service;
