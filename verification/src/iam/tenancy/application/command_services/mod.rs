pub mod tenancy_command_service_impl;
pub mod tenant_maintenance_workflows;
