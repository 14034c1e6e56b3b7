pub mod git;
pub mod context;
