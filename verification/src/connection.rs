pub mod command;
pub mod connection;
