pub mod cli;
pub mod rest;
