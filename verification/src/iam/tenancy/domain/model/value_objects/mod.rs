pub mod google_oauth_tenant_configuration;
pub mod membership_id;
pub mod membership_role;
pub mod membership_status;
pub mod tenant_anon_key;
pub mod tenant_frontend_url;
pub mod tenant_id;
pub mod tenant_name;
pub mod tenant_schema_name;
pub mod tenant_status;
