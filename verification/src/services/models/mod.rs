//! Model storage layout and download planning.

pub mod manager;

pub use manager::ModelManager;
