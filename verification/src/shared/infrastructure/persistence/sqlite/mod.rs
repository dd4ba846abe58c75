pub mod connection_manager;
