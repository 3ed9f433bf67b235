pub mod name;
pub mod laws;
