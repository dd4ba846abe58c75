pub mod tenancy_facade_impl;
