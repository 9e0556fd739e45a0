//! Services: speech recognition and synthesis decisions, model management,
//! cloud API framing.

pub mod models;
pub mod api;
pub mod stt;
pub mod tts;

pub use models::ModelManager;
