//! Configuration management: data model, model registry, validation.

pub mod downloader;
pub mod keyed;
pub mod loader;
pub mod models;
pub mod registry_text;
pub mod validator;
pub mod shared;
pub mod voices;

pub use models::{
    language_type_for_code, ApiConfig, ApiRegion, AppConfig, KeySource, Provider, SttConfig,
    TtsConfig, TtsLanguageConfig,
};

pub use downloader::ConfigModelDownloader;
pub use loader::ConfigLoader;
pub use shared::SharedConfig;
pub use validator::{ConfigValidator, ModelRegistry};
pub use voices::{is_known_voice, Voice};
