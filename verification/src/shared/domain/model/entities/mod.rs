pub mod auditable_model;
