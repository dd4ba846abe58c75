pub mod controllers;
pub mod resources;
