pub mod persistence;
pub mod services;
