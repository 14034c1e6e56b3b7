pub mod model;
pub mod checks;
