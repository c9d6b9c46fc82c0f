pub mod remote;
pub mod template;
