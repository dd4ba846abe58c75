pub mod web_configuration;
