pub mod application;
pub mod domain;
pub mod infrastructure;
pub mod interfaces;
