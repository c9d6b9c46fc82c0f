pub mod commands;
pub mod control;
pub mod files;
