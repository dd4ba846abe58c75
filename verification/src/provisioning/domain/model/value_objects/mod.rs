pub mod resource_name;
