//! Model types supported by the application

use vstd::prelude::*;

verus! {

/// Model types supported by the application
#[derive(Clone, Copy, Debug, PartialEq, Eq, Structural)]
pub enum ModelType {
    /// Text-to-Speech model
    Tts,
    /// Speech-to-Text model (streaming)
    Stt,
    /// Whisper model (offline STT)
    Whisper,
    /// Voice Activity Detection model
    Vad,
}

/// The subdirectory of a model type.
pub open spec fn subdirectory_of(t: ModelType) -> Seq<char> {
    match t {
        ModelType::Tts => "tts"@,
        ModelType::Stt => "stt"@,
        ModelType::Whisper => "whisper"@,
        ModelType::Vad => "vad"@,
    }
}

/// The default model name of a model type.
pub open spec fn default_model_name_of(t: ModelType) -> Seq<char> {
    match t {
        ModelType::Tts => "vits-piper-en_US-amy-low"@,
        ModelType::Stt => "sherpa-onnx-streaming-zipformer-bilingual-zh-en-2023-02-20"@,
        ModelType::Whisper => "sherpa-onnx-whisper-tiny.en"@,
        ModelType::Vad => "silero_vad"@,
    }
}

/// The default download URL of a model type.
pub open spec fn default_url_of(t: ModelType) -> Seq<char> {
    match t {
        ModelType::Tts => "https://github.com/k2-fsa/sherpa-onnx/releases/download/tts-models/vits-piper-en_US-amy-low.tar.bz2"@,
        ModelType::Stt => "https://github.com/k2-fsa/sherpa-onnx/releases/download/asr-models/sherpa-onnx-streaming-zipformer-bilingual-zh-en-2023-02-20.tar.bz2"@,
        ModelType::Whisper => "https://github.com/k2-fsa/sherpa-onnx/releases/download/asr-models/sherpa-onnx-whisper-tiny.en.tar.bz2"@,
        ModelType::Vad => "https://github.com/k2-fsa/sherpa-onnx/releases/download/vad-models/silero_vad.onnx"@,
    }
}

/// The files a model type needs.
pub open spec fn required_files_of(t: ModelType) -> Seq<Seq<char>> {
    match t {
        ModelType::Tts => seq!["en_US-amy-low.onnx"@, "tokens.txt"@],
        ModelType::Stt => seq![
            "encoder-epoch-99-avg-1.onnx"@,
            "decoder-epoch-99-avg-1.onnx"@,
            "joiner-epoch-99-avg-1.onnx"@,
            "tokens.txt"@,
        ],
        ModelType::Whisper => seq![
            "tiny.en-encoder.int8.onnx"@,
            "tiny.en-decoder.int8.onnx"@,
            "tiny.en-tokens.txt"@,
        ],
        ModelType::Vad => seq!["silero_vad.onnx"@],
    }
}

/// The views of a list of string slices.
pub open spec fn strs_view(v: Seq<&'static str>) -> Seq<Seq<char>> {
    v.map_values(|s: &'static str| s@)
}

impl ModelType {
    /// Get the subdirectory name for this model type
    pub fn subdirectory(&self) -> (r: &'static str)
        ensures
            r@ == subdirectory_of(*self),
    {
        match self {
            ModelType::Tts => "tts",
            ModelType::Stt => "stt",
            ModelType::Whisper => "whisper",
            ModelType::Vad => "vad",
        }
    }

    /// Get the default model name for this type
    pub fn default_model_name(&self) -> (r: &'static str)
        ensures
            r@ == default_model_name_of(*self),
    {
        match self {
            ModelType::Tts => "vits-piper-en_US-amy-low",
            ModelType::Stt => "sherpa-onnx-streaming-zipformer-bilingual-zh-en-2023-02-20",
            ModelType::Whisper => "sherpa-onnx-whisper-tiny.en",
            ModelType::Vad => "silero_vad",
        }
    }

    /// Get the default download URL for this model type
    pub fn default_url(&self) -> (r: &'static str)
        ensures
            r@ == default_url_of(*self),
    {
        match self {
            ModelType::Tts => "https://github.com/k2-fsa/sherpa-onnx/releases/download/tts-models/vits-piper-en_US-amy-low.tar.bz2",
            ModelType::Stt => "https://github.com/k2-fsa/sherpa-onnx/releases/download/asr-models/sherpa-onnx-streaming-zipformer-bilingual-zh-en-2023-02-20.tar.bz2",
            ModelType::Whisper => "https://github.com/k2-fsa/sherpa-onnx/releases/download/asr-models/sherpa-onnx-whisper-tiny.en.tar.bz2",
            ModelType::Vad => "https://github.com/k2-fsa/sherpa-onnx/releases/download/vad-models/silero_vad.onnx",
        }
    }

    /// Get the list of required files for this model type
    pub fn required_files(&self) -> (r: Vec<&'static str>)
        ensures
            strs_view(r@) == required_files_of(*self),
    {
        let mut v: Vec<&'static str> = Vec::new();
        match self {
            ModelType::Tts => {
                v.push("en_US-amy-low.onnx");
                v.push("tokens.txt");
            },
            ModelType::Stt => {
                v.push("encoder-epoch-99-avg-1.onnx");
                v.push("decoder-epoch-99-avg-1.onnx");
                v.push("joiner-epoch-99-avg-1.onnx");
                v.push("tokens.txt");
            },
            ModelType::Whisper => {
                v.push("tiny.en-encoder.int8.onnx");
                v.push("tiny.en-decoder.int8.onnx");
                v.push("tiny.en-tokens.txt");
            },
            ModelType::Vad => {
                v.push("silero_vad.onnx");
            },
        }
        assert(strs_view(v@) =~= required_files_of(*self));
        v
    }
}

} // verus!
