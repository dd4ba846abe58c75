pub mod account_lockout;
pub mod docker_provisioner;
pub mod vault_client;
pub mod rate_limiter;
pub mod circuit_breaker;
