pub mod tenant_access_resolved_event;
