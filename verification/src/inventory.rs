pub mod groups;
pub mod hosts;
