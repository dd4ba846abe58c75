pub mod acl;
pub mod cli;
pub mod rest;
