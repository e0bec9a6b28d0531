pub mod laws;
pub mod model;
pub mod outside;
pub mod planet;
pub mod types;
