pub mod crypto;
pub mod domain;
pub mod infrastructure;
pub mod interfaces;
pub mod paths;
pub mod uuids;
