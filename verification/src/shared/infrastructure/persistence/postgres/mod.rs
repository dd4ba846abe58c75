pub mod migrations;
