pub mod configuration;
pub mod middleware;
