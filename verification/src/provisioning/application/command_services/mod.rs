pub mod provisioning_command_service_impl;
