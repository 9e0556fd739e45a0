//! Verified core of a text-to-speech and speech-to-text service.

pub mod bench;
pub mod utils;
pub mod config;
pub mod domain;
pub mod daemon;
pub mod secrets;
pub mod services;

pub use services::ModelManager;
pub use domain::ModelType;
pub use config::{AppConfig, ConfigLoader, ConfigValidator, ConfigModelDownloader, SharedConfig};
