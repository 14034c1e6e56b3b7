pub mod tool;
pub mod prompt;
pub mod session;
pub mod qualify;
