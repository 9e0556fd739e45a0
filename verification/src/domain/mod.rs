//! Domain types.

pub mod models;

pub use models::ModelType;
