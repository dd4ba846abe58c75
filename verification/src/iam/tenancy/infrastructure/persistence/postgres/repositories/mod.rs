pub mod membership_repository_impl;
pub mod tenant_repository_impl;
