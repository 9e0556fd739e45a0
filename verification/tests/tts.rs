use ttsandsttp::ConfigValidator;
use ttsandsttp::config::validator::{RawModel, RegistryDocument};
use ttsandsttp::config::{ApiConfig, AppConfig, ModelRegistry, Provider, SttConfig, TtsConfig, TtsLanguageConfig};
use ttsandsttp::services::tts::{
    find_language, select_language, speak_plan, tts_model_files, SpeakPlan, TtsError, TtsState,
};
use ttsandsttp::ModelManager;

fn lang_cfg(enabled: bool, model_id: &str) -> TtsLanguageConfig {
    TtsLanguageConfig {
        enabled,
        provider: Provider::Local,
        model_id: model_id.to_string(),
        api_model: String::new(),
        voice: String::new(),
        language_type: String::new(),
        stream: false,
    }
}

fn config() -> AppConfig {
    AppConfig {
        tts: TtsConfig {
            default: "en".to_string(),
            languages: vec![
                ("en".to_string(), lang_cfg(true, "amy")),
                ("pl".to_string(), lang_cfg(true, "gosia")),
                ("de".to_string(), lang_cfg(false, "thorsten")),
                ("fr".to_string(), lang_cfg(true, "siwis")),
                ("it".to_string(), lang_cfg(true, "paola")),
            ],
        },
        stt: SttConfig { provider: Provider::Local, model_id: "w".to_string(), api_model: String::new(), api_language: String::new() },
        api: ApiConfig::default(),
    }
}

fn raw(id: &str, files: &[&str]) -> RawModel {
    RawModel {
        id: Some(id.to_string()),
        download_url: Some("https://example.org/m".to_string()),
        required_files: Some(files.iter().map(|f| Some(f.to_string())).collect()),
        json_url: None,
        size: None,
        language_code: None,
    }
}

fn registry() -> ModelRegistry {
    let doc = RegistryDocument {
        tts: Some(vec![
            ("en".to_string(), Some(vec![Some(raw("amy", &["tokens.txt", "amy.onnx"]))])),
            ("pl".to_string(), Some(vec![Some(raw("gosia", &["gosia.onnx"]))])),
            ("fr".to_string(), Some(vec![Some(raw("other", &["x.onnx"]))])),
            ("it".to_string(), Some(vec![Some(raw("paola", &["tokens.txt"]))])),
        ]),
        stt_whisper: None,
    };
    ModelRegistry::load(&doc).map_err(|_| ()).expect("registry")
}

#[test]
fn language_lookup() {
    let c = config();
    assert_eq!(find_language(&c, "pl").map(|l| l.model_id.as_str()), Some("gosia"));
    assert!(find_language(&c, "es").is_none());
}

#[test]
fn language_selection_normalizes() {
    let c = config();
    assert_eq!(select_language(&c, "PL-pl").map_err(|_| ()), Ok("pl".to_string()));
    assert!(matches!(select_language(&c, "de-DE"), Err(TtsError::LanguageDisabled { ref lang }) if lang == "de"));
    assert!(matches!(select_language(&c, "es"), Err(TtsError::LanguageNotConfigured { ref lang }) if lang == "es"));
}

#[test]
fn model_files_of_a_language() {
    let m = ModelManager::from_data_dir("/nonexistent-data");
    let f = tts_model_files(&config(), &registry(), &m, "en").map_err(|_| ()).expect("files");
    assert_eq!(f.dir, "/nonexistent-data/stttts/tts/en");
    assert_eq!(f.model_file, "/nonexistent-data/stttts/tts/en/amy.onnx");
    assert_eq!(f.tokens_file, "/nonexistent-data/stttts/tts/en/tokens.txt");
    assert_eq!(f.data_dir, "/nonexistent-data/stttts/tts/en/espeak-ng-data");
}

#[test]
fn model_file_errors() {
    let m = ModelManager::from_data_dir("/nonexistent-data");
    assert!(matches!(tts_model_files(&config(), &registry(), &m, "es"), Err(TtsError::LanguageNotConfigured { .. })));
    assert!(matches!(
        tts_model_files(&config(), &registry(), &m, "fr"),
        Err(TtsError::NoModel { ref model_id, ref lang }) if model_id == "siwis" && lang == "fr"
    ));
    assert!(matches!(tts_model_files(&config(), &registry(), &m, "it"), Err(TtsError::NoOnnxFile { ref lang }) if lang == "it"));
}

#[test]
fn speaking_strategy() {
    assert_eq!(speak_plan(0, 0), SpeakPlan::Nothing);
    assert_eq!(speak_plan(1, 199), SpeakPlan::Simple);
    assert_eq!(speak_plan(1, 200), SpeakPlan::Chunked);
    assert_eq!(speak_plan(3, 40), SpeakPlan::Chunked);
}

#[test]
fn engine_is_created_once_per_language() {
    let mut s = TtsState::new();
    assert_eq!(s.current_language(), "en-US");
    let (lang, needed) = s.engine_needed("en-US");
    assert_eq!(lang, "en");
    assert!(needed);
    s.mark_engine_ready(lang);
    assert!(!s.engine_needed("EN").1);
    assert!(s.engine_needed("pl").1);
    s.switch_language("en".to_string());
    assert!(s.engine_needed("en").1);
}

#[test]
fn stop_only_acts_when_playing() {
    let mut s = TtsState::new();
    assert!(!s.stop());
    s.start_playing();
    assert!(s.is_playing());
    assert!(s.stop());
    assert!(!s.is_playing());
    assert!(!s.stop());
}

#[test]
fn validated_local_language_has_its_model() {
    let mut c = config();
    c.tts.languages.retain(|(l, _)| l == "en");
    c.stt.provider = Provider::Dashscope;
    assert!(ConfigValidator::validate(&c, &registry()).is_ok());
    let m = ModelManager::from_data_dir("/nonexistent-data");
    assert!(tts_model_files(&c, &registry(), &m, "en").is_ok());
}
