pub mod tenancy_controller;
