pub mod commands;
pub mod value_objects;
