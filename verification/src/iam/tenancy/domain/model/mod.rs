pub mod aggregates;
pub mod commands;
pub mod events;
pub mod queries;
pub mod value_objects;
