pub mod tenancy;
