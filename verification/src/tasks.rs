pub mod checksum;
pub mod cmd_library;
pub mod common;
pub mod fields;
pub mod files;
pub mod logic;
pub mod request;
pub mod response;
