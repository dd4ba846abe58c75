pub mod persistence;
