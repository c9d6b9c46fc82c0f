pub mod copy;
pub mod git;
pub mod template;
