pub mod text;
pub mod yaml;
