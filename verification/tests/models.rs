use ttsandsttp::services::models::manager::model_files_present;
use ttsandsttp::services::models::manager::{
    after_download, check_announced_size, check_downloaded_size, download_plan, is_bzip2_magic,
    resolve_model_dir, DownloadError, DownloadPlan, EnsureError,
};
use ttsandsttp::{ModelManager, ModelType};

#[test]
fn model_type_layout() {
    assert_eq!(ModelType::Tts.subdirectory(), "tts");
    assert_eq!(ModelType::Whisper.subdirectory(), "whisper");
    assert_eq!(ModelType::Vad.default_model_name(), "silero_vad");
    assert_eq!(ModelType::Stt.default_model_name(), "sherpa-onnx-streaming-zipformer-bilingual-zh-en-2023-02-20");
    assert_eq!(
        ModelType::Vad.default_url(),
        "https://github.com/k2-fsa/sherpa-onnx/releases/download/vad-models/silero_vad.onnx"
    );
    assert_eq!(ModelType::Tts.required_files(), vec!["en_US-amy-low.onnx", "tokens.txt"]);
    assert_eq!(
        ModelType::Whisper.required_files(),
        vec!["tiny.en-encoder.int8.onnx", "tiny.en-decoder.int8.onnx", "tiny.en-tokens.txt"]
    );
    assert_eq!(ModelType::Stt.required_files().len(), 4);
}

#[test]
fn manager_paths() {
    let m = ModelManager::from_data_dir("/home/u/.local/share");
    assert_eq!(m.models_dir(), "/home/u/.local/share/stttts");
    assert_eq!(m.model_path(&ModelType::Whisper), "/home/u/.local/share/stttts/whisper");
    assert_eq!(m.tts_model_dir("pl"), "/home/u/.local/share/stttts/tts/pl");
    assert_eq!(m.stt_model_dir("whisper-tiny"), "/home/u/.local/share/stttts/whisper/whisper-tiny");
}

#[test]
fn missing_archive_subdirectory_falls_back_to_base() {
    let m = ModelManager::from_data_dir("/nonexistent-root-for-tests");
    assert_eq!(m.actual_model_path(&ModelType::Tts), "/nonexistent-root-for-tests/stttts/tts");
    assert_eq!(
        m.get_model_file(&ModelType::Tts, "tokens.txt"),
        "/nonexistent-root-for-tests/stttts/tts/tokens.txt"
    );
    assert_eq!(m.find_actual_model_path("/nonexistent-x/base", "id"), "/nonexistent-x/base");
    assert_eq!(m.get_tts_model_path("en", "amy"), "/nonexistent-root-for-tests/stttts/tts/en");
    assert_eq!(m.get_stt_model_path("w"), "/nonexistent-root-for-tests/stttts/whisper/w");
    assert!(!m.check_model_files("/nonexistent-x/base", &ModelType::Vad));
}

#[test]
fn existing_subdirectory_is_preferred() {
    let m = ModelManager::from_data_dir("/");
    assert_eq!(m.find_actual_model_path("/", "tmp"), "/tmp");
    assert_eq!(resolve_model_dir("a".to_string(), "a/b".to_string(), true), "a/b");
    assert_eq!(resolve_model_dir("a".to_string(), "a/b".to_string(), false), "a");
}

#[test]
fn onnx_urls_are_single_files_others_archives() {
    assert_eq!(
        download_plan("https://host/models/pl_PL-gosia.onnx", "pl-gosia"),
        DownloadPlan::SingleFile { filename: "pl_PL-gosia.onnx".to_string() }
    );
    assert_eq!(
        download_plan("https://host/models/amy.tar.bz2", "amy"),
        DownloadPlan::Archive { archive_name: "amy.tar.bz2".to_string() }
    );
    assert_eq!(download_plan("m.onnx", "x"), DownloadPlan::SingleFile { filename: "m.onnx".to_string() });
}

#[test]
fn bzip2_magic() {
    assert!(is_bzip2_magic(b"BZh9"));
    assert!(!is_bzip2_magic(b"<html"));
}

#[test]
fn download_sizes() {
    assert_eq!(check_announced_size(1023), Err(DownloadError::TooSmall { size: 1023 }));
    assert_eq!(check_announced_size(1024), Ok(()));
    assert_eq!(check_downloaded_size(5000, 4000), Err(DownloadError::Incomplete { expected: 5000, actual: 4000 }));
    assert_eq!(check_downloaded_size(5000, 5000), Ok(()));
    assert_eq!(check_downloaded_size(100, 100), Err(DownloadError::TooSmall { size: 100 }));
}

#[test]
fn optional_model_may_stay_missing() {
    assert_eq!(after_download(&ModelType::Vad, false, false), Ok(false));
    assert_eq!(after_download(&ModelType::Vad, true, false), Ok(false));
    assert_eq!(after_download(&ModelType::Vad, true, true), Ok(true));
    assert_eq!(after_download(&ModelType::Whisper, false, false), Err(EnsureError::DownloadFailed));
    assert_eq!(after_download(&ModelType::Tts, true, false), Err(EnsureError::Incomplete));
    assert_eq!(after_download(&ModelType::Tts, true, true), Ok(true));
}

#[test]
fn model_files_verdict() {
    assert!(model_files_present(true, true, &[true, true]));
    assert!(model_files_present(true, true, &[]));
    assert!(!model_files_present(true, true, &[true, false]));
    assert!(!model_files_present(false, true, &[true]));
    assert!(!model_files_present(true, false, &[true]));
}
