use ttsandsttp::config::registry_text::{registry_document, RegistryLoadError};
use ttsandsttp::config::downloader::first_onnx_file;
use ttsandsttp::config::keyed::find_key;
use ttsandsttp::config::validator::{ConfigError, ModelField, RawModel, RegistryDocument, RegistryError};
use ttsandsttp::config::voices::{str_eq_ignore_ascii_case, unknown_voices};
use ttsandsttp::config::{
    is_known_voice, language_type_for_code, ApiConfig, ApiRegion, AppConfig, ConfigLoader,
    ConfigModelDownloader, ConfigValidator, KeySource, ModelRegistry, Provider, SharedConfig,
    SttConfig, TtsConfig, TtsLanguageConfig, Voice,
};
use ttsandsttp::ModelManager;

fn raw(id: &str, url: &str, files: &[&str]) -> RawModel {
    RawModel {
        id: Some(id.to_string()),
        download_url: Some(url.to_string()),
        required_files: Some(files.iter().map(|f| Some(f.to_string())).collect()),
        json_url: None,
        size: Some("75MB".to_string()),
        language_code: Some("multilingual".to_string()),
    }
}

fn document() -> RegistryDocument {
    RegistryDocument {
        tts: Some(vec![
            (
                "en".to_string(),
                Some(vec![Some(raw(
                    "vits-piper-en_US-amy-low",
                    "https://example.org/amy.tar.bz2",
                    &["en_US-amy-low.onnx", "tokens.txt"],
                ))]),
            ),
            (
                "pl".to_string(),
                Some(vec![Some(raw(
                    "pl-gosia",
                    "https://example.org/pl.onnx",
                    &["tokens.txt", "pl_PL-gosia.onnx"],
                ))]),
            ),
        ]),
        stt_whisper: Some(vec![(
            "whisper-tiny".to_string(),
            Some(raw(
                "whisper-tiny",
                "https://example.org/whisper.tar.bz2",
                &["tiny-encoder.onnx", "tiny-decoder.onnx", "tiny-tokens.txt"],
            )),
        )]),
    }
}

fn lang_cfg(enabled: bool, model_id: &str) -> TtsLanguageConfig {
    TtsLanguageConfig {
        enabled,
        provider: Provider::Local,
        model_id: model_id.to_string(),
        api_model: "qwen3-tts-flash".to_string(),
        voice: String::new(),
        language_type: String::new(),
        stream: true,
    }
}

fn config() -> AppConfig {
    AppConfig {
        tts: TtsConfig {
            default: "en".to_string(),
            languages: vec![
                ("en".to_string(), lang_cfg(true, "vits-piper-en_US-amy-low")),
                ("pl".to_string(), lang_cfg(true, "pl-gosia")),
            ],
        },
        stt: SttConfig {
            provider: Provider::Local,
            model_id: "whisper-tiny".to_string(),
            api_model: "qwen3-asr-flash".to_string(),
            api_language: String::new(),
        },
        api: ApiConfig::default(),
    }
}

fn registry() -> ModelRegistry {
    match ModelRegistry::load(&document()) {
        Ok(r) => r,
        Err(e) => panic!("registry did not load: {:?}", e),
    }
}

#[test]
fn provider_is_dashscope() {
    assert!(Provider::Dashscope.is_dashscope());
    assert!(!Provider::Local.is_dashscope());
}

#[test]
fn region_presets() {
    assert_eq!(ApiRegion::Singapore.base_url(), "https://dashscope-intl.aliyuncs.com/api/v1");
    assert_eq!(ApiRegion::Beijing.base_url(), "https://dashscope.aliyuncs.com/api/v1");
    assert_eq!(ApiRegion::Custom.base_url(), "");
    assert_eq!(ApiRegion::Singapore.slug(), "singapore");
    assert_eq!(ApiRegion::Beijing.slug(), "beijing");
    assert_eq!(ApiRegion::Custom.slug(), "custom");
    assert_eq!(ApiRegion::Beijing.default_env(), "DASHSCOPE_API_KEY");
}

#[test]
fn api_config_defaults_and_effective_values() {
    let api = ApiConfig::default();
    assert_eq!(api.region, ApiRegion::Singapore);
    assert_eq!(api.key_source, KeySource::Auto);
    assert_eq!(api.timeout_secs, 60);
    assert_eq!(api.effective_base_url(), "https://dashscope-intl.aliyuncs.com/api/v1");
    assert_eq!(api.effective_env(), "DASHSCOPE_API_KEY");
    let custom = ApiConfig {
        base_url: "https://proxy.local/v1".to_string(),
        api_key_env: "MY_KEY".to_string(),
        ..ApiConfig::default()
    };
    assert_eq!(custom.effective_base_url(), "https://proxy.local/v1");
    assert_eq!(custom.effective_env(), "MY_KEY");
}

#[test]
fn language_types() {
    assert_eq!(language_type_for_code("zh"), "Chinese");
    assert_eq!(language_type_for_code("en"), "English");
    assert_eq!(language_type_for_code("de"), "German");
    assert_eq!(language_type_for_code("ko"), "Korean");
    assert_eq!(language_type_for_code("pl"), "English");
}

#[test]
fn config_paths() {
    assert_eq!(ConfigLoader::config_dir("/home/u/.config"), "/home/u/.config/ttsandsttp");
    assert_eq!(ConfigLoader::config_path("/home/u/.config"), "/home/u/.config/ttsandsttp/config.toml");
}

#[test]
fn voices_match_ignoring_ascii_case() {
    let voices = vec![Voice { id: "Cherry".to_string(), gender: "female".to_string(), description: String::new() }];
    assert!(is_known_voice(&voices, "cherry"));
    assert!(is_known_voice(&voices, "CHERRY"));
    assert!(!is_known_voice(&voices, "Ethan"));
    assert!(str_eq_ignore_ascii_case("AbC", "aBc"));
    assert!(!str_eq_ignore_ascii_case("abc", "abcd"));
}

#[test]
fn unknown_cloud_voices_are_reported() {
    let voices = vec![Voice { id: "Cherry".to_string(), gender: String::new(), description: String::new() }];
    let mut cfg = config();
    cfg.tts.languages[0].1.provider = Provider::Dashscope;
    cfg.tts.languages[0].1.voice = "Nobody".to_string();
    cfg.tts.languages[1].1.provider = Provider::Dashscope;
    cfg.tts.languages[1].1.voice = "cherry".to_string();
    cfg.tts.languages.push(("de".to_string(), TtsLanguageConfig { voice: "   ".to_string(), provider: Provider::Dashscope, ..lang_cfg(true, "x") }));
    cfg.tts.languages.push(("fr".to_string(), TtsLanguageConfig { voice: "Ghost".to_string(), ..lang_cfg(true, "x") }));
    let warned = unknown_voices(&cfg, &voices);
    assert_eq!(warned, vec![("en".to_string(), "Nobody".to_string())]);
}

#[test]
fn find_key_returns_first_match() {
    let e = vec![("a".to_string(), 1), ("b".to_string(), 2), ("a".to_string(), 3)];
    assert_eq!(find_key(&e, "a"), Some(0));
    assert_eq!(find_key(&e, "b"), Some(1));
    assert_eq!(find_key(&e, "c"), None);
}

#[test]
fn registry_loads_and_answers() {
    let r = registry();
    let m = r.get_tts_model("pl", "pl-gosia").expect("pl model");
    assert_eq!(m.download_url, "https://example.org/pl.onnx");
    assert!(r.get_tts_model("pl", "vits-piper-en_US-amy-low").is_none());
    assert_eq!(r.get_tts_models_for_language("en").map(|v| v.len()), Some(1));
    assert!(r.get_tts_models_for_language("de").is_none());
    assert!(r.is_valid_tts_model_id("pl-gosia"));
    assert!(!r.is_valid_tts_model_id("whisper-tiny"));
    assert!(r.is_valid_stt_model_id("whisper-tiny"));
    assert!(!r.is_valid_stt_model_id("whisper-base"));
    let s = r.get_stt_model("whisper-tiny").expect("stt model");
    assert_eq!(s.language_code, "multilingual");
    assert_eq!(s.size, "75MB");
}

#[test]
fn registry_missing_field_is_reported() {
    let mut doc = document();
    if let Some(tts) = doc.tts.as_mut() {
        if let Some(models) = tts[1].1.as_mut() {
            models[0] = Some(RawModel { download_url: None, ..raw("pl-gosia", "u", &[]) });
        }
    }
    match ModelRegistry::load(&doc) {
        Err(RegistryError::MissingTtsField { lang, id, field }) => {
            assert_eq!(lang, "pl");
            assert_eq!(id, Some("pl-gosia".to_string()));
            assert_eq!(field, ModelField::DownloadUrl);
        }
        other => panic!("unexpected: {:?}", other.map(|_| ())),
    }
    let mut doc = document();
    doc.stt_whisper = Some(vec![("w".to_string(), Some(RawModel { id: None, ..raw("w", "u", &[]) }))]);
    match ModelRegistry::load(&doc) {
        Err(RegistryError::MissingSttField { model, field }) => {
            assert_eq!(model, "w");
            assert_eq!(field, ModelField::Id);
        }
        other => panic!("unexpected: {:?}", other.map(|_| ())),
    }
}

#[test]
fn registry_defaults_unknown_size_and_skips_non_objects() {
    let mut doc = document();
    doc.stt_whisper = Some(vec![
        ("bad".to_string(), None),
        ("w".to_string(), Some(RawModel { size: None, language_code: None, ..raw("w", "u", &["a"]) })),
    ]);
    let r = ModelRegistry::load(&doc).map_err(|_| ()).expect("loads");
    assert!(!r.is_valid_stt_model_id("bad"));
    let w = r.get_stt_model("w").expect("w");
    assert_eq!(w.size, "unknown");
    assert_eq!(w.language_code, "unknown");
}

#[test]
fn valid_config_passes() {
    assert!(ConfigValidator::validate(&config(), &registry()).is_ok());
}

#[test]
fn invalid_default_language() {
    let mut cfg = config();
    cfg.tts.default = "xx".to_string();
    match ConfigValidator::validate(&cfg, &registry()) {
        Err(ConfigError::InvalidDefaultLanguage { lang, supported }) => {
            assert_eq!(lang, "xx");
            assert_eq!(supported, vec!["en".to_string(), "pl".to_string()]);
        }
        other => panic!("unexpected: {:?}", other),
    }
}

#[test]
fn invalid_language_and_model() {
    let mut cfg = config();
    cfg.tts.languages.push(("de".to_string(), lang_cfg(true, "m")));
    assert!(matches!(
        ConfigValidator::validate(&cfg, &registry()),
        Err(ConfigError::InvalidLanguage { ref lang, .. }) if lang == "de"
    ));
    let mut cfg = config();
    cfg.tts.languages.push(("de".to_string(), lang_cfg(false, "m")));
    assert!(ConfigValidator::validate(&cfg, &registry()).is_ok());
    let mut cfg = config();
    cfg.tts.languages[1].1.model_id = "pl-other".to_string();
    match ConfigValidator::validate(&cfg, &registry()) {
        Err(ConfigError::InvalidTtsModel { model_id, lang, available }) => {
            assert_eq!(model_id, "pl-other");
            assert_eq!(lang, "pl");
            assert_eq!(available, vec!["pl-gosia".to_string()]);
        }
        other => panic!("unexpected: {:?}", other),
    }
}

#[test]
fn invalid_stt_model() {
    let mut cfg = config();
    cfg.stt.model_id = "whisper-huge".to_string();
    match ConfigValidator::validate(&cfg, &registry()) {
        Err(ConfigError::InvalidSttModel { model_id, supported }) => {
            assert_eq!(model_id, "whisper-huge");
            assert_eq!(supported, vec!["whisper-tiny".to_string()]);
        }
        other => panic!("unexpected: {:?}", other),
    }
}

#[test]
fn get_registry_wraps_document_errors() {
    assert!(ConfigValidator::get_registry(&document()).is_ok());
    let doc = RegistryDocument {
        tts: Some(vec![("en".to_string(), Some(vec![Some(RawModel { id: None, ..raw("x", "u", &[]) })]))]),
        stt_whisper: None,
    };
    assert!(matches!(ConfigValidator::get_registry(&doc), Err(ConfigError::Registry(RegistryError::MissingTtsField { .. }))));
}

#[test]
fn shared_config_keeps_what_it_loaded() {
    let shared = SharedConfig::load(config(), &document()).map_err(|_| ()).expect("loads");
    assert_eq!(shared.config().tts.default, "en");
    assert!(shared.registry().is_valid_stt_model_id("whisper-tiny"));
    assert_eq!(shared.config_arc().stt.model_id, "whisper-tiny");
    assert!(shared.registry_arc().is_valid_tts_model_id("pl-gosia"));
    let bad = RegistryDocument { tts: None, stt_whisper: Some(vec![("w".to_string(), Some(RawModel { id: None, ..raw("w", "u", &[]) }))]) };
    assert!(SharedConfig::load(config(), &bad).is_err());
}

#[test]
fn first_onnx_file_picks_first_model_file() {
    let files = vec!["tokens.txt".to_string(), "a.onnx".to_string(), "b.onnx".to_string()];
    assert_eq!(first_onnx_file(&files), Some("a.onnx".to_string()));
    assert_eq!(first_onnx_file(&vec!["tokens.txt".to_string()]), None);
}

#[test]
fn download_plan_lists_enabled_languages_then_whisper() {
    let mut cfg = config();
    cfg.tts.languages.push(("de".to_string(), lang_cfg(false, "x")));
    let manager = ModelManager::from_data_dir("/data");
    let plan = ConfigModelDownloader::plan(&cfg, &registry(), &manager);
    assert_eq!(plan.len(), 3);
    assert_eq!(plan[0].model_id, "vits-piper-en_US-amy-low");
    assert_eq!(plan[0].extract_to, "/data/stttts/tts/en");
    assert_eq!(plan[0].sample_rate_model_file, None);
    assert_eq!(plan[1].model_id, "pl-gosia");
    assert_eq!(plan[1].extract_to, "/data/stttts/tts/pl");
    assert_eq!(plan[1].sample_rate_model_file, Some("pl_PL-gosia.onnx".to_string()));
    assert_eq!(plan[2].model_id, "whisper-tiny");
    assert_eq!(plan[2].extract_to, "/data/stttts/whisper/whisper-tiny");
    assert_eq!(plan[2].url, "https://example.org/whisper.tar.bz2");
}

#[test]
fn validated_config_downloads_every_enabled_language() {
    let mut cfg = config();
    cfg.tts.languages.push(("de".to_string(), lang_cfg(false, "nothing")));
    let reg = registry();
    assert!(ConfigValidator::validate(&cfg, &reg).is_ok());
    let enabled = cfg.tts.languages.iter().filter(|(_, c)| c.enabled).count();
    let plan = ConfigModelDownloader::plan(&cfg, &reg, &ModelManager::from_data_dir("/d"));
    assert_eq!(plan.len(), enabled + 1);
    let last = plan.last().expect("whisper task");
    assert_eq!(last.model_id, "whisper-tiny");
    assert_eq!(last.extract_to, "/d/stttts/whisper/whisper-tiny");
    for (lang, c) in cfg.tts.languages.iter().filter(|(_, c)| c.enabled) {
        assert!(reg.get_tts_model(lang, &c.model_id).is_some());
    }
}

#[test]
fn cloud_providers_need_no_local_models() {
    let mut cfg = config();
    cfg.stt.provider = Provider::Dashscope;
    cfg.stt.model_id = String::new();
    cfg.tts.languages.push((
        "ja".to_string(),
        TtsLanguageConfig { provider: Provider::Dashscope, voice: "Cherry".to_string(), ..lang_cfg(true, "") },
    ));
    assert!(ConfigValidator::validate(&cfg, &registry()).is_ok());
    cfg.stt.provider = Provider::Local;
    assert!(matches!(ConfigValidator::validate(&cfg, &registry()), Err(ConfigError::InvalidSttModel { .. })));
}

#[test]
fn disabled_and_cloud_languages_do_not_change_validation() {
    let reg = registry();
    let base = ConfigValidator::validate(&config(), &reg).is_ok();
    let mut cfg = config();
    cfg.tts.languages.push(("xx".to_string(), lang_cfg(false, "missing")));
    cfg.tts.languages.push((
        "yy".to_string(),
        TtsLanguageConfig { provider: Provider::Dashscope, ..lang_cfg(true, "missing") },
    ));
    assert_eq!(ConfigValidator::validate(&cfg, &reg).is_ok(), base);
}

#[test]
fn registry_lists_languages_with_models_once() {
    let mut doc = document();
    if let Some(tts) = doc.tts.as_mut() {
        tts.push(("de".to_string(), Some(vec![None])));
        tts.push(("fr".to_string(), None));
    }
    let r = ModelRegistry::load(&doc).map_err(|_| ()).expect("loads");
    assert!(r.get_tts_models_for_language("de").is_none());
    assert!(r.get_tts_models_for_language("fr").is_none());
    for lang in ["en", "pl"] {
        assert!(!r.get_tts_models_for_language(lang).expect("listed").is_empty());
    }
    assert!(r.is_valid_tts_model_id("pl-gosia"));
    assert!(r.get_tts_model("pl", "pl-gosia").is_some());
}

const MODELS_JSON: &str = r#"{
  "tts": {
    "en": [ { "id": "amy", "download_url": "https://h/amy.tar.bz2", "required_files": ["amy.onnx", 7, "tokens.txt"] } ],
    "x/y~z": [ { "id": "odd", "download_url": "u", "required_files": [] }, "not a model" ],
    "empty": [],
    "bad": 3
  },
  "stt_whisper": {
    "tiny": { "id": "tiny", "download_url": "https://h/tiny.tar.bz2", "required_files": ["enc.onnx"] },
    "junk": 1
  }
}"#;

#[test]
fn registry_loads_from_json_text() {
    let r = ModelRegistry::load_text(MODELS_JSON).map_err(|_| ()).expect("loads");
    let amy = r.get_tts_model("en", "amy").expect("amy");
    assert_eq!(amy.required_files, vec!["amy.onnx".to_string(), "tokens.txt".to_string()]);
    assert!(r.get_tts_model("x/y~z", "odd").is_some());
    assert!(r.get_tts_models_for_language("empty").is_none());
    assert!(r.get_tts_models_for_language("bad").is_none());
    let tiny = r.get_stt_model("tiny").expect("tiny");
    assert_eq!(tiny.size, "unknown");
    assert_eq!(tiny.language_code, "unknown");
    assert!(!r.is_valid_stt_model_id("junk"));
}

#[test]
fn registry_document_follows_the_json() {
    let d = registry_document(MODELS_JSON).expect("json");
    let tts = d.tts.expect("tts object");
    let keys: Vec<&str> = tts.iter().map(|(k, _)| k.as_str()).collect();
    assert_eq!(keys, vec!["bad", "empty", "en", "x/y~z"]);
    assert!(tts[0].1.is_none());
    assert_eq!(tts[3].1.as_ref().map(|v| v.len()), Some(2));
    assert!(tts[3].1.as_ref().unwrap()[1].is_none());
    let en = tts[2].1.as_ref().unwrap()[0].as_ref().unwrap();
    assert_eq!(en.required_files, Some(vec![Some("amy.onnx".to_string()), None, Some("tokens.txt".to_string())]));
    assert_eq!(registry_document("[1]").map(|d| d.tts.is_none() && d.stt_whisper.is_none()), Some(true));
    assert!(registry_document("{oops").is_none());
}

#[test]
fn registry_text_errors() {
    assert!(matches!(ModelRegistry::load_text("not json"), Err(RegistryLoadError::NotJson)));
    let missing = r#"{"stt_whisper": {"w": {"id": "w", "required_files": []}}}"#;
    match ModelRegistry::load_text(missing) {
        Err(RegistryLoadError::Missing(RegistryError::MissingSttField { model, field })) => {
            assert_eq!(model, "w");
            assert_eq!(field, ModelField::DownloadUrl);
        }
        _ => panic!("expected a missing field"),
    }
}
