pub mod tenancy_facade;
