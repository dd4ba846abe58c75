pub mod postgres;
pub mod sqlite;
