use ttsandsttp::services::stt::state::ChunkStep;
use ttsandsttp::config::validator::{RawModel, RegistryDocument};
use ttsandsttp::config::{ApiConfig, AppConfig, ModelRegistry, Provider, SttConfig, TtsConfig};
use ttsandsttp::services::stt::state::{
    audio_timed_out, has_enough_audio, PauseStep, Reinit, StopStep, SttState, DEFAULT_PAUSE_NS,
    MIN_AUDIO_SAMPLES,
};
use ttsandsttp::services::stt::whisper::{
    find_file, init_language, language_for_model, whisper_model_files, WhisperError,
};
use ttsandsttp::services::stt::{ActivityLevel, AudioProcessor, PauseDetector, TARGET_SAMPLE_RATE};
use ttsandsttp::utils::chars::chars_contain;
use ttsandsttp::ModelManager;

fn registry(files: &[&str], lang: &str) -> ModelRegistry {
    let doc = RegistryDocument {
        tts: None,
        stt_whisper: Some(vec![(
            "whisper-tiny".to_string(),
            Some(RawModel {
                id: Some("whisper-tiny".to_string()),
                download_url: Some("https://example.org/w.tar.bz2".to_string()),
                required_files: Some(files.iter().map(|f| Some(f.to_string())).collect()),
                json_url: None,
                size: None,
                language_code: Some(lang.to_string()),
            }),
        )]),
    };
    ModelRegistry::load(&doc).map_err(|_| ()).expect("registry")
}

fn config(model_id: &str) -> AppConfig {
    AppConfig {
        tts: TtsConfig { default: "en".to_string(), languages: vec![] },
        stt: SttConfig {
            provider: Provider::Local,
            model_id: model_id.to_string(),
            api_model: String::new(),
            api_language: String::new(),
        },
        api: ApiConfig::default(),
    }
}

#[test]
fn whisper_files_are_found_by_name() {
    let reg = registry(&["tiny-tokens.txt", "tiny-encoder.int8.onnx", "tiny-decoder.int8.onnx"], "multilingual");
    let m = ModelManager::from_data_dir("/nonexistent-data");
    let f = whisper_model_files(&config("whisper-tiny"), &reg, &m).map_err(|_| ()).expect("files");
    assert_eq!(f.encoder, "/nonexistent-data/stttts/whisper/whisper-tiny/tiny-encoder.int8.onnx");
    assert_eq!(f.decoder, "/nonexistent-data/stttts/whisper/whisper-tiny/tiny-decoder.int8.onnx");
    assert_eq!(f.tokens, "/nonexistent-data/stttts/whisper/whisper-tiny/tiny-tokens.txt");
    assert_eq!(f.language_code, "multilingual");
}

#[test]
fn whisper_errors() {
    let m = ModelManager::from_data_dir("/nonexistent-data");
    let reg = registry(&["tiny-encoder.onnx", "tiny-decoder.onnx", "tokens.txt"], "en");
    assert!(matches!(whisper_model_files(&config("other"), &reg, &m), Err(WhisperError::ModelNotFound { ref model_id }) if model_id == "other"));
    let no_enc = registry(&["tiny-decoder.onnx", "tokens.txt", "encoder.bin"], "en");
    assert!(matches!(whisper_model_files(&config("whisper-tiny"), &no_enc, &m), Err(WhisperError::NoEncoder { .. })));
    let no_dec = registry(&["tiny-encoder.onnx", "tokens.txt"], "en");
    assert!(matches!(whisper_model_files(&config("whisper-tiny"), &no_dec, &m), Err(WhisperError::NoDecoder { .. })));
    let no_tok = registry(&["tiny-encoder.onnx", "tiny-decoder.onnx", "tokens.json"], "en");
    assert!(matches!(whisper_model_files(&config("whisper-tiny"), &no_tok, &m), Err(WhisperError::NoTokens { ref model_id }) if model_id == "whisper-tiny"));
}

#[test]
fn find_file_and_contains() {
    let files = vec!["a-decoder.onnx".to_string(), "b-encoder.onnx".to_string(), "c-encoder.onnx".to_string()];
    assert_eq!(find_file(&files, "encoder", ".onnx"), Some("b-encoder.onnx".to_string()));
    assert_eq!(find_file(&files, "joiner", ".onnx"), None);
    assert_eq!(find_file(&files, "", "der.onnx"), Some("a-decoder.onnx".to_string()));
    let hay: Vec<char> = "tiny.en-encoder".chars().collect();
    assert!(chars_contain(&hay, &"encoder".chars().collect::<Vec<_>>()));
    assert!(chars_contain(&hay, &[]));
    assert!(!chars_contain(&hay, &"decoder".chars().collect::<Vec<_>>()));
}

#[test]
fn decoding_language_choice() {
    assert_eq!(init_language("", "multilingual"), "en");
    assert_eq!(init_language("en", "multilingual"), "en");
    assert_eq!(init_language("en", "pl"), "pl");
    assert_eq!(init_language("PL-pl", "multilingual"), "pl");
    assert_eq!(language_for_model("DE-at", "multilingual"), "de");
    assert_eq!(language_for_model("de", "en"), "en");
}

#[test]
fn fresh_state() {
    let s = SttState::new();
    assert!(!s.initialized);
    assert!(!s.is_listening());
    assert_eq!(s.current_text(), "");
    assert_eq!(s.current_language, "en");
    assert_eq!(s.pause_duration_ns, DEFAULT_PAUSE_NS);
    assert_eq!(DEFAULT_PAUSE_NS, 2_000_000_000);
}

#[test]
fn start_needs_init_then_language_switch() {
    let mut s = SttState::new();
    let (lang, re) = s.prepare_start("pl-PL");
    assert_eq!(lang, "pl");
    assert_eq!(re, Reinit::Init);
    assert_eq!(s.current_language, "pl");
    s.mark_initialized();
    let (lang, re) = s.prepare_start("pl");
    assert_eq!((lang.as_str(), re), ("pl", Reinit::Keep));
    let (lang, re) = s.prepare_start("EN");
    assert_eq!((lang.as_str(), re), ("en", Reinit::InitWithLanguage));
    s.mark_initialized_with("en".to_string());
    assert!(s.initialized);
    assert_eq!(s.current_language, "en");
}

#[test]
fn begin_listening_resets_session() {
    let mut s = SttState::new();
    s.current_text = "old".to_string();
    s.beep_played = true;
    assert!(s.begin_listening("de".to_string(), 1_500_000_000));
    assert!(s.is_listening());
    assert_eq!(s.current_text, "");
    assert!(!s.beep_played);
    assert_eq!(s.current_language, "de");
    assert_eq!(s.pause_duration_ns, 1_500_000_000);
    assert!(!s.begin_listening("fr".to_string(), 1));
    assert_eq!(s.current_language, "de");
}

#[test]
fn low_beep_sounds_once_per_recording() {
    let mut s = SttState::new();
    s.begin_listening("en".to_string(), DEFAULT_PAUSE_NS);
    assert_eq!(s.on_pause(100), PauseStep::KeepRecording);
    assert_eq!(s.on_pause(MIN_AUDIO_SAMPLES), PauseStep::StopAndDecode { play_low_beep: true });
    assert!(s.record_decoded("hello".to_string()));
    s.finish_after_pause();
    assert!(!s.is_listening());
    match s.stop() {
        StopStep::AlreadyStopped { text } => assert_eq!(text, "hello"),
        StopStep::Stopped { .. } => panic!("was not recording"),
    }
    s.begin_listening("en".to_string(), DEFAULT_PAUSE_NS);
    assert!(s.take_low_beep());
    assert!(!s.take_low_beep());
    match s.stop() {
        StopStep::Stopped { play_low_beep } => assert!(!play_low_beep),
        StopStep::AlreadyStopped { .. } => panic!("was recording"),
    }
}

#[test]
fn stop_while_recording_beeps_and_reports_decode() {
    let mut s = SttState::new();
    s.begin_listening("en".to_string(), DEFAULT_PAUSE_NS);
    assert!(matches!(s.stop(), StopStep::Stopped { play_low_beep: true }));
    assert!(!s.is_listening());
    assert_eq!(s.text_after_stop(Some("decoded".to_string())), "decoded");
    assert!(!s.record_decoded(String::new()));
    assert_eq!(s.text_after_stop(None), "");
}

#[test]
fn cancel_drops_text() {
    let mut s = SttState::new();
    s.begin_listening("en".to_string(), DEFAULT_PAUSE_NS);
    s.record_decoded("partial".to_string());
    s.cancel();
    assert!(!s.is_listening());
    assert_eq!(s.current_text(), "");
    s.record_decoded("kept".to_string());
    s.cancel();
    assert_eq!(s.current_text(), "kept");
}

#[test]
fn audio_thresholds() {
    assert!(!has_enough_audio(7999));
    assert!(has_enough_audio(8000));
    assert!(audio_timed_out(false, 2001));
    assert!(!audio_timed_out(false, 2000));
    assert!(!audio_timed_out(true, 10_000));
}

#[test]
fn pause_after_speech_and_silence() {
    let mut d = PauseDetector::new(2_000);
    assert_eq!(d.process_level(ActivityLevel::Silence, 0), None);
    assert!(!d.has_detected_speech());
    assert_eq!(d.process_level(ActivityLevel::Speech, 10), Some(false));
    assert_eq!(d.process_level(ActivityLevel::Silence, 100), None);
    assert_eq!(d.silence_start(), Some(100));
    assert_eq!(d.process_level(ActivityLevel::Silence, 2_100), None);
    assert_eq!(d.process_level(ActivityLevel::Silence, 2_101), Some(true));
    assert_eq!(d.process_level(ActivityLevel::Activity, 2_200), Some(false));
    assert_eq!(d.silence_start(), Some(100));
    assert_eq!(d.process_level(ActivityLevel::Speech, 2_300), Some(false));
    assert_eq!(d.silence_start(), None);
    d.reset();
    assert!(!d.has_detected_speech());
    assert_eq!(d.process_level(ActivityLevel::Activity, 3_000), Some(false));
    assert!(d.has_detected_speech());
}

#[test]
fn audio_processor_settings() {
    let p = AudioProcessor::new(48_000, 2);
    assert_eq!(p.input_sample_rate(), 48_000);
    assert_eq!(p.channels(), 2);
    assert!(p.needs_resampling());
    assert!(!AudioProcessor::new(16_000, 1).needs_resampling());
    assert_eq!(AudioProcessor::target_sample_rate(), 16_000);
    assert_eq!(TARGET_SAMPLE_RATE, 16_000);
}

#[test]
fn chunks_before_the_start_beep_are_dropped() {
    let mut s = SttState::new();
    s.begin_listening("en".to_string(), DEFAULT_PAUSE_NS);
    assert_eq!(s.on_chunk(false, true, 20_000), ChunkStep::Discard);
    assert!(!s.beep_played);
    assert_eq!(s.on_chunk(true, false, 20_000), ChunkStep::Accumulate);
    assert_eq!(s.on_chunk(true, true, 100), ChunkStep::Accumulate);
    assert_eq!(s.on_chunk(true, true, 8_000), ChunkStep::StopAndDecode { play_low_beep: true });
    assert!(s.is_listening());
    s.finish_after_pause();
    assert!(!s.is_listening());
}

#[test]
fn silence_before_speech_never_pauses() {
    let mut d = PauseDetector::new(10);
    for t in 0..1000u128 {
        assert_eq!(d.process_level(ActivityLevel::Silence, t * 1_000), None);
    }
    d.process_level(ActivityLevel::Speech, 2_000_000);
    d.reset();
    for t in 0..100u128 {
        assert_eq!(d.process_level(ActivityLevel::Silence, 3_000_000 + t * 1_000), None);
    }
}
