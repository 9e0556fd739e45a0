//! Whisper model selection: which files of the configured model to load, and
//! in which language to decode.

use vstd::prelude::*;
use crate::config::keyed::lookup;
use crate::config::models::AppConfig;
use crate::config::validator::{ModelRegistry, strings_view};
use crate::services::models::manager::{ModelManager, chars_end_with, ends_with, model_dir_choice, resolve_model_dir};
use crate::utils::chars::{chars_of, chars_contain, contains_seq, str_eq};
use crate::utils::lang::{normalize_language_code, unicode_lowercase, language_base};
use crate::utils::path::{join, path_exists, path_join};

verus! {

/// Whether a file name contains `needle` and ends with `suffix`.
pub open spec fn file_matches(f: Seq<char>, needle: Seq<char>, suffix: Seq<char>) -> bool {
    contains_seq(f, needle) && ends_with(f, suffix)
}

/// The first file name that contains `needle` and ends with `suffix`.
pub open spec fn first_match(files: Seq<Seq<char>>, needle: Seq<char>, suffix: Seq<char>) -> Option<Seq<char>>
    decreases files.len(),
{
    if files.len() == 0 {
        None
    } else if file_matches(files[0], needle, suffix) {
        Some(files[0])
    } else {
        first_match(files.drop_first(), needle, suffix)
    }
}

/// The first of `files` that contains `needle` and ends with `suffix`.
pub fn find_file(files: &Vec<String>, needle: &str, suffix: &str) -> (r: Option<String>)
    ensures
        match r {
            Some(f) => first_match(strings_view(files@), needle@, suffix@) == Some(f@),
            None => first_match(strings_view(files@), needle@, suffix@) is None,
        },
{
    let pat = chars_of(needle);
    let suf = chars_of(suffix);
    let mut i: usize = 0;
    assert(strings_view(files@).skip(0) == strings_view(files@));
    while i < files.len()
        invariant
            i <= files@.len(),
            pat@ == needle@,
            suf@ == suffix@,
            first_match(strings_view(files@), needle@, suffix@)
                == first_match(strings_view(files@).skip(i as int), needle@, suffix@),
        decreases files.len() - i,
    {
        let cs = chars_of(files[i].as_str());
        let ghost rest = strings_view(files@).skip(i as int);
        assert(rest[0] == files@[i as int]@);
        assert(rest.drop_first() == strings_view(files@).skip(i + 1));
        if chars_contain(cs.as_slice(), pat.as_slice()) && chars_end_with(cs.as_slice(), suf.as_slice()) {
            return Some(files[i].clone());
        }
        i += 1;
    }
    None
}

/// Why the Whisper model cannot be loaded.
#[derive(Debug, Clone)]
pub enum WhisperError {
    /// The configured model ID is not in the registry.
    ModelNotFound { model_id: String },
    /// The model lists no `*encoder*.onnx` file.
    NoEncoder { model_id: String },
    /// The model lists no `*decoder*.onnx` file.
    NoDecoder { model_id: String },
    /// The model lists no `*tokens.txt` file.
    NoTokens { model_id: String },
}

/// The files and language of the configured Whisper model.
#[derive(Debug, Clone)]
pub struct WhisperModelFiles {
    pub encoder: String,
    pub decoder: String,
    pub tokens: String,
    /// The model's language code ("multilingual" for a multilingual model).
    pub language_code: String,
}

/// The archive subdirectory whose existence decides where the configured
/// Whisper model lies: `{models_dir}/whisper/{model_id}/{model_id}`.
pub fn whisper_model_subdir(config: &AppConfig, manager: &ModelManager) -> (r: String)
    ensures
        ({
            let id = config.stt.model_id@;
            r@ == path_join(path_join(path_join(manager.dir(), "whisper"@), id), id)
        }),
{
    let base = manager.stt_model_dir(config.stt.model_id.as_str());
    join(base.as_str(), config.stt.model_id.as_str())
}

/// Finds the files of the configured Whisper model, given whether the
/// archive subdirectory `{models_dir}/whisper/{model_id}/{model_id}` exists:
/// the files lie there exactly when it exists, else in
/// `{models_dir}/whisper/{model_id}`.
pub fn whisper_model_files_found(config: &AppConfig, registry: &ModelRegistry, manager: &ModelManager, subdir_exists: bool) -> (r: Result<WhisperModelFiles, WhisperError>)
    ensures
        ({
            let id = config.stt.model_id@;
            match r {
                Ok(f) => (lookup(registry@.stt, id) matches Some(m)
                    && first_match(m.required_files, "encoder"@, ".onnx"@) matches Some(enc)
                    && first_match(m.required_files, "decoder"@, ".onnx"@) matches Some(dec)
                    && first_match(m.required_files, ""@, "tokens.txt"@) matches Some(tok)
                    && ({
                        let base = path_join(path_join(manager.dir(), "whisper"@), id);
                        let dir = model_dir_choice(base, path_join(base, id), subdir_exists);
                        &&& f.encoder@ == path_join(dir, enc)
                        &&& f.decoder@ == path_join(dir, dec)
                        &&& f.tokens@ == path_join(dir, tok)
                    })
                    && f.language_code@ == m.language_code),
                Err(WhisperError::ModelNotFound { model_id }) => model_id@ == id
                    && lookup(registry@.stt, id) is None,
                Err(WhisperError::NoEncoder { model_id }) => model_id@ == id
                    && (lookup(registry@.stt, id) matches Some(m)
                    && first_match(m.required_files, "encoder"@, ".onnx"@) is None),
                Err(WhisperError::NoDecoder { model_id }) => model_id@ == id
                    && (lookup(registry@.stt, id) matches Some(m)
                    && first_match(m.required_files, "encoder"@, ".onnx"@) is Some
                    && first_match(m.required_files, "decoder"@, ".onnx"@) is None),
                Err(WhisperError::NoTokens { model_id }) => model_id@ == id
                    && (lookup(registry@.stt, id) matches Some(m)
                    && first_match(m.required_files, "encoder"@, ".onnx"@) is Some
                    && first_match(m.required_files, "decoder"@, ".onnx"@) is Some
                    && first_match(m.required_files, ""@, "tokens.txt"@) is None),
            }
        }),
{
    let model_id = config.stt.model_id.as_str();
    let info = match registry.get_stt_model(model_id) {
        Some(m) => m,
        None => return Err(WhisperError::ModelNotFound { model_id: model_id.to_owned() }),
    };
    let encoder = match find_file(&info.required_files, "encoder", ".onnx") {
        Some(f) => f,
        None => return Err(WhisperError::NoEncoder { model_id: model_id.to_owned() }),
    };
    let decoder = match find_file(&info.required_files, "decoder", ".onnx") {
        Some(f) => f,
        None => return Err(WhisperError::NoDecoder { model_id: model_id.to_owned() }),
    };
    let tokens = match find_file(&info.required_files, "", "tokens.txt") {
        Some(f) => f,
        None => return Err(WhisperError::NoTokens { model_id: model_id.to_owned() }),
    };
    let base = manager.stt_model_dir(model_id);
    let subdir = join(base.as_str(), model_id);
    let dir = resolve_model_dir(base, subdir, subdir_exists);
    Ok(WhisperModelFiles {
        encoder: join(dir.as_str(), encoder.as_str()),
        decoder: join(dir.as_str(), decoder.as_str()),
        tokens: join(dir.as_str(), tokens.as_str()),
        language_code: info.language_code.clone(),
    })
}

/// Finds the files of the configured Whisper model. They lie in
/// `{models_dir}/whisper/{model_id}`, or in its subdirectory named after the
/// model when that exists. The disk answers whether that subdirectory exists;
/// `whisper_model_files_found` states the files for each answer.
pub fn whisper_model_files(config: &AppConfig, registry: &ModelRegistry, manager: &ModelManager) -> (r: Result<WhisperModelFiles, WhisperError>)
    ensures
        ({
            let id = config.stt.model_id@;
            match r {
                Ok(f) => (lookup(registry@.stt, id) matches Some(m)
                    && first_match(m.required_files, "encoder"@, ".onnx"@) matches Some(enc)
                    && first_match(m.required_files, "decoder"@, ".onnx"@) matches Some(dec)
                    && first_match(m.required_files, ""@, "tokens.txt"@) matches Some(tok)
                    && ({
                        let base = path_join(path_join(manager.dir(), "whisper"@), id);
                        let dir = path_join(base, id);
                        ||| (f.encoder@ == path_join(dir, enc) && f.decoder@ == path_join(dir, dec)
                                && f.tokens@ == path_join(dir, tok))
                        ||| (f.encoder@ == path_join(base, enc) && f.decoder@ == path_join(base, dec)
                                && f.tokens@ == path_join(base, tok))
                    })
                    && f.language_code@ == m.language_code),
                Err(WhisperError::ModelNotFound { model_id }) => model_id@ == id
                    && lookup(registry@.stt, id) is None,
                Err(WhisperError::NoEncoder { model_id }) => model_id@ == id
                    && (lookup(registry@.stt, id) matches Some(m)
                    && first_match(m.required_files, "encoder"@, ".onnx"@) is None),
                Err(WhisperError::NoDecoder { model_id }) => model_id@ == id
                    && (lookup(registry@.stt, id) matches Some(m)
                    && first_match(m.required_files, "encoder"@, ".onnx"@) is Some
                    && first_match(m.required_files, "decoder"@, ".onnx"@) is None),
                Err(WhisperError::NoTokens { model_id }) => model_id@ == id
                    && (lookup(registry@.stt, id) matches Some(m)
                    && first_match(m.required_files, "encoder"@, ".onnx"@) is Some
                    && first_match(m.required_files, "decoder"@, ".onnx"@) is Some
                    && first_match(m.required_files, ""@, "tokens.txt"@) is None),
            }
        }),
{
    let subdir = whisper_model_subdir(config, manager);
    let subdir_exists = path_exists(subdir.as_str());
    whisper_model_files_found(config, registry, manager, subdir_exists)
}

/// The decoding language at first initialization: with no language chosen
/// yet (empty or the default "en"), the model's own language, or "en" for a
/// multilingual model; otherwise the chosen language, normalized.
pub fn init_language(current: &str, model_language: &str) -> (r: String)
    ensures
        r@ == (if current@.len() == 0 || current@ == "en"@ {
            if model_language@ == "multilingual"@ { "en"@ } else { model_language@ }
        } else {
            unicode_lowercase(language_base(current@))
        }),
{
    if current.unicode_len() == 0 || str_eq(current, "en") {
        if str_eq(model_language, "multilingual") {
            "en".to_owned()
        } else {
            model_language.to_owned()
        }
    } else {
        normalize_language_code(current)
    }
}

/// The decoding language for a requested language: the request (normalized)
/// on a multilingual model, the model's own language otherwise.
pub fn language_for_model(requested: &str, model_language: &str) -> (r: String)
    ensures
        r@ == (if model_language@ == "multilingual"@ {
            unicode_lowercase(language_base(requested@))
        } else {
            model_language@
        }),
{
    if str_eq(model_language, "multilingual") {
        normalize_language_code(requested)
    } else {
        model_language.to_owned()
    }
}

} // verus!
