//! Speech-to-text support: audio configuration, pause detection, the
//! recognizer's state and the Whisper model's files.

pub mod audio_processor;
pub mod pause_detector;
pub mod state;
pub mod whisper;

pub use audio_processor::{AudioProcessor, TARGET_SAMPLE_RATE};
pub use pause_detector::{ActivityLevel, PauseDetector};
pub use state::SttState;
pub use whisper::{WhisperModelFiles, whisper_model_files};
