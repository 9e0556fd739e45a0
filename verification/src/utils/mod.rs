//! Utility functions

pub mod audio_source;
pub mod chars;
pub mod json;
pub mod lang;
pub mod logging;
pub mod onnx_metadata;
pub mod path;
pub mod text;
pub mod text_splitter;
pub mod wav;

pub use audio_source::DirectSampleSource;
pub use lang::normalize_language_code;
pub use logging::format_timestamp;
pub use text_splitter::split_into_sentences;
pub use wav::create_wav_buffer;
