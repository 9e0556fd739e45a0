//! Text-to-speech decisions: which language and model files to use, and how
//! to speak a text.

use vstd::prelude::*;
use crate::config::keyed::{find_key, key_views, keys_distinct, lemma_distinct_lookup, lookup};
use crate::config::models::{AppConfig, Provider, TtsLanguageConfig};
use crate::config::validator::{ModelRegistry, RegistrySpec, find_tts_model, validation_result, law_validated_config_resolves};
use crate::config::downloader::first_onnx;
use crate::services::models::manager::{ModelManager, model_dir_choice, resolve_model_dir};
use crate::utils::lang::{normalize_language_code, unicode_lowercase, language_base};
use crate::utils::path::{join, path_exists, path_join};

verus! {

/// Why a language cannot be spoken.
#[derive(Debug, Clone)]
pub enum TtsError {
    /// The language has no `[tts.<lang>]` section.
    LanguageNotConfigured { lang: String },
    /// The language is configured but not enabled.
    LanguageDisabled { lang: String },
    /// The registry has no model with the configured ID for the language.
    NoModel { model_id: String, lang: String },
    /// The language's model lists no `.onnx` file.
    NoOnnxFile { lang: String },
}

/// The configuration of a language, by code (first match).
pub open spec fn language_config(config: AppConfig, lang: Seq<char>) -> Option<TtsLanguageConfig> {
    lookup(key_views(config.tts.languages@), lang)
}

/// The configuration section of a language.
pub fn find_language<'a>(config: &'a AppConfig, lang: &str) -> (r: Option<&'a TtsLanguageConfig>)
    ensures
        match r {
            Some(c) => language_config(*config, lang@) == Some(*c),
            None => language_config(*config, lang@) is None,
        },
{
    match find_key(&config.tts.languages, lang) {
        Some(i) => {
            assert(key_views(config.tts.languages@)[i as int].1 == config.tts.languages@[i as int].1);
            Some(&config.tts.languages[i].1)
        },
        None => None,
    }
}

/// The language to switch to for a requested code: its normalized form, which
/// must be configured and enabled.
pub fn select_language(config: &AppConfig, lang: &str) -> (r: Result<String, TtsError>)
    ensures
        ({
            let n = unicode_lowercase(language_base(lang@));
            match r {
                Ok(l) => l@ == n && (language_config(*config, n) matches Some(c) && c.enabled),
                Err(TtsError::LanguageNotConfigured { lang: l }) => l@ == n && language_config(*config, n) is None,
                Err(TtsError::LanguageDisabled { lang: l }) => l@ == n && (language_config(*config, n) matches Some(c) && !c.enabled),
                Err(_) => false,
            }
        }),
{
    let normalized = normalize_language_code(lang);
    match find_language(config, normalized.as_str()) {
        None => Err(TtsError::LanguageNotConfigured { lang: normalized }),
        Some(c) => {
            if !c.enabled {
                Err(TtsError::LanguageDisabled { lang: normalized })
            } else {
                Ok(normalized)
            }
        },
    }
}

/// The files of a language's TTS model.
#[derive(Debug, Clone)]
pub struct TtsModelFiles {
    /// The directory that holds the model.
    pub dir: String,
    /// The `.onnx` model.
    pub model_file: String,
    /// `tokens.txt`.
    pub tokens_file: String,
    /// The `espeak-ng-data` directory (optional for some models).
    pub data_dir: String,
}

/// The archive subdirectory whose existence decides where a language's TTS
/// model lies: `{models_dir}/tts/{lang}/{model id}`, when the language is
/// configured and its model is in the registry.
pub fn tts_model_subdir(config: &AppConfig, registry: &ModelRegistry, manager: &ModelManager, lang: &str) -> (r: Option<String>)
    ensures
        match r {
            Some(p) => language_config(*config, lang@) matches Some(c)
                && find_tts_model(registry@, lang@, c.model_id@) matches Some(m)
                && p@ == path_join(path_join(path_join(manager.dir(), "tts"@), lang@), m.id),
            None => !(language_config(*config, lang@) matches Some(c)
                && find_tts_model(registry@, lang@, c.model_id@) is Some),
        },
{
    let c = match find_language(config, lang) {
        Some(c) => c,
        None => return None,
    };
    let info = match registry.get_tts_model(lang, c.model_id.as_str()) {
        Some(m) => m,
        None => return None,
    };
    let base = manager.tts_model_dir(lang);
    Some(join(base.as_str(), info.id.as_str()))
}

/// Finds the model files of a language, given whether the model's archive
/// subdirectory `{models_dir}/tts/{lang}/{model id}` exists: the configured
/// model ID must be in the registry for the language and list an `.onnx`
/// file; the files lie in that subdirectory exactly when it exists, else in
/// `{models_dir}/tts/{lang}`.
pub fn tts_model_files_found(config: &AppConfig, registry: &ModelRegistry, manager: &ModelManager, lang: &str, subdir_exists: bool) -> (r: Result<TtsModelFiles, TtsError>)
    ensures
        match r {
            Ok(f) => (language_config(*config, lang@) matches Some(c)
                && find_tts_model(registry@, lang@, c.model_id@) matches Some(m)
                && first_onnx(m.required_files) matches Some(onnx)
                && ({
                    let base = path_join(path_join(manager.dir(), "tts"@), lang@);
                    &&& f.dir@ == model_dir_choice(base, path_join(base, m.id), subdir_exists)
                    &&& f.model_file@ == path_join(f.dir@, onnx)
                    &&& f.tokens_file@ == path_join(f.dir@, "tokens.txt"@)
                    &&& f.data_dir@ == path_join(f.dir@, "espeak-ng-data"@)
                })),
            Err(TtsError::LanguageNotConfigured { lang: l }) => l@ == lang@ && language_config(*config, lang@) is None,
            Err(TtsError::NoModel { model_id, lang: l }) => l@ == lang@ && (language_config(*config, lang@) matches Some(c)
                && model_id@ == c.model_id@ && find_tts_model(registry@, lang@, c.model_id@) is None),
            Err(TtsError::NoOnnxFile { lang: l }) => l@ == lang@ && (language_config(*config, lang@) matches Some(c)
                && find_tts_model(registry@, lang@, c.model_id@) matches Some(m) && first_onnx(m.required_files) is None),
            Err(TtsError::LanguageDisabled { .. }) => false,
        },
{
    let c = match find_language(config, lang) {
        Some(c) => c,
        None => return Err(TtsError::LanguageNotConfigured { lang: lang.to_owned() }),
    };
    let info = match registry.get_tts_model(lang, c.model_id.as_str()) {
        Some(m) => m,
        None => return Err(TtsError::NoModel { model_id: c.model_id.clone(), lang: lang.to_owned() }),
    };
    let onnx = match crate::config::downloader::first_onnx_file(&info.required_files) {
        Some(f) => f,
        None => return Err(TtsError::NoOnnxFile { lang: lang.to_owned() }),
    };
    let base = manager.tts_model_dir(lang);
    let subdir = join(base.as_str(), info.id.as_str());
    let dir = resolve_model_dir(base, subdir, subdir_exists);
    let model_file = join(dir.as_str(), onnx.as_str());
    let tokens_file = join(dir.as_str(), "tokens.txt");
    let data_dir = join(dir.as_str(), "espeak-ng-data");
    Ok(TtsModelFiles { dir, model_file, tokens_file, data_dir })
}

/// Finds the model files of a language: the configured model ID must be in
/// the registry for the language and list an `.onnx` file; the files lie in
/// `{models_dir}/tts/{lang}`, or in its subdirectory named after the model
/// when that exists. The disk answers whether the subdirectory
/// (`tts_model_subdir`) exists; `tts_model_files_found` states the files for
/// each answer.
pub fn tts_model_files(config: &AppConfig, registry: &ModelRegistry, manager: &ModelManager, lang: &str) -> (r: Result<TtsModelFiles, TtsError>)
    ensures
        match r {
            Ok(f) => (language_config(*config, lang@) matches Some(c)
                && find_tts_model(registry@, lang@, c.model_id@) matches Some(m)
                && first_onnx(m.required_files) matches Some(onnx)
                && ({
                    let base = path_join(path_join(manager.dir(), "tts"@), lang@);
                    &&& (f.dir@ == base || f.dir@ == path_join(base, m.id))
                    &&& f.model_file@ == path_join(f.dir@, onnx)
                    &&& f.tokens_file@ == path_join(f.dir@, "tokens.txt"@)
                    &&& f.data_dir@ == path_join(f.dir@, "espeak-ng-data"@)
                })),
            Err(TtsError::LanguageNotConfigured { lang: l }) => l@ == lang@ && language_config(*config, lang@) is None,
            Err(TtsError::NoModel { model_id, lang: l }) => l@ == lang@ && (language_config(*config, lang@) matches Some(c)
                && model_id@ == c.model_id@ && find_tts_model(registry@, lang@, c.model_id@) is None),
            Err(TtsError::NoOnnxFile { lang: l }) => l@ == lang@ && (language_config(*config, lang@) matches Some(c)
                && find_tts_model(registry@, lang@, c.model_id@) matches Some(m) && first_onnx(m.required_files) is None),
            Err(TtsError::LanguageDisabled { .. }) => false,
        },
{
    let subdir_exists = match tts_model_subdir(config, registry, manager, lang) {
        Some(p) => path_exists(p.as_str()),
        None => false,
    };
    tts_model_files_found(config, registry, manager, lang, subdir_exists)
}

/// How a text is spoken.
#[derive(Debug, Clone, Copy, PartialEq, Eq, Structural)]
pub enum SpeakPlan {
    /// Nothing to say.
    Nothing,
    /// One short sentence: synthesize and play it whole.
    Simple,
    /// Play the first sentence while the rest are synthesized.
    Chunked,
}

/// The speaking strategy for a text split into `sentence_count` sentences and
/// `text_len` bytes long.
pub fn speak_plan(sentence_count: usize, text_len: usize) -> (r: SpeakPlan)
    ensures
        sentence_count == 0 ==> r == SpeakPlan::Nothing,
        sentence_count == 1 && text_len < 200 ==> r == SpeakPlan::Simple,
        sentence_count > 1 || (sentence_count == 1 && text_len >= 200) ==> r == SpeakPlan::Chunked,
{
    if sentence_count == 0 {
        SpeakPlan::Nothing
    } else if sentence_count == 1 && text_len < 200 {
        SpeakPlan::Simple
    } else {
        SpeakPlan::Chunked
    }
}

/// The mathematical value of the TTS state.
pub struct TtsStateView {
    pub initialized: bool,
    pub playing: bool,
    pub current_language: Seq<char>,
}

/// State of the text-to-speech service.
#[derive(Debug, Clone)]
pub struct TtsState {
    /// An engine has been created for `current_language`.
    pub initialized: bool,
    /// Speech is being played.
    pub playing: bool,
    /// The language of the engine.
    pub current_language: String,
}

impl View for TtsState {
    type V = TtsStateView;

    open spec fn view(&self) -> TtsStateView {
        TtsStateView {
            initialized: self.initialized,
            playing: self.playing,
            current_language: self.current_language@,
        }
    }
}

/// Whether an engine must be created to speak `language`.
pub open spec fn needs_engine(s: TtsStateView, language: Seq<char>) -> bool {
    !(s.initialized && s.current_language == language)
}

/// The state after an engine was created for `language`.
pub open spec fn engine_ready_spec(s: TtsStateView, language: Seq<char>) -> TtsStateView {
    TtsStateView { initialized: true, current_language: language, ..s }
}

/// The state after switching to `language`: the engine must be recreated.
pub open spec fn switch_spec(s: TtsStateView, language: Seq<char>) -> TtsStateView {
    TtsStateView { initialized: false, current_language: language, ..s }
}

/// The state after a stop request.
pub open spec fn tts_stop_spec(s: TtsStateView) -> TtsStateView {
    TtsStateView { playing: false, ..s }
}

impl TtsState {
    /// A session with no engine, language "en-US", not playing.
    pub fn new() -> (r: Self)
        ensures
            !r.initialized,
            !r.playing,
            r.current_language@ == "en-US"@,
    {
        TtsState { initialized: false, playing: false, current_language: "en-US".to_owned() }
    }

    /// The normalized form of `lang`, and whether an engine must be created
    /// for it.
    pub fn engine_needed(&self, lang: &str) -> (r: (String, bool))
        ensures
            r.0@ == unicode_lowercase(language_base(lang@)),
            r.1 == needs_engine(self@, r.0@),
    {
        let normalized = normalize_language_code(lang);
        let same = crate::utils::chars::str_eq(self.current_language.as_str(), normalized.as_str());
        let needed = !(self.initialized && same);
        (normalized, needed)
    }

    /// Records an engine created for `language`.
    pub fn mark_engine_ready(&mut self, language: String)
        ensures
            final(self)@ == engine_ready_spec(old(self)@, language@),
    {
        self.initialized = true;
        self.current_language = language;
    }

    /// Switches to `language` (already selected by `select_language`): the
    /// engine is recreated before the next speech.
    pub fn switch_language(&mut self, language: String)
        ensures
            final(self)@ == switch_spec(old(self)@, language@),
    {
        self.current_language = language;
        self.initialized = false;
    }

    /// Records that playback started.
    pub fn start_playing(&mut self)
        ensures
            final(self)@ == (TtsStateView { playing: true, ..old(self)@ }),
    {
        self.playing = true;
    }

    /// Stops playback; returns whether anything was playing (only then must
    /// playback be cancelled).
    pub fn stop(&mut self) -> (was_playing: bool)
        ensures
            was_playing == old(self).playing,
            final(self)@ == tts_stop_spec(old(self)@),
    {
        let was_playing = self.playing;
        self.playing = false;
        was_playing
    }

    /// Whether speech is being played.
    pub fn is_playing(&self) -> (r: bool)
        ensures
            r == self.playing,
    {
        self.playing
    }

    /// The language of the engine.
    pub fn current_language(&self) -> (r: String)
        ensures
            r@ == self.current_language@,
    {
        self.current_language.clone()
    }
}

/// An engine is created once per language: after it is ready for a language
/// no other is needed for it, and a language switch always asks for a new
/// one, even to the same language.
pub proof fn law_engine_once_per_language(s: TtsStateView, language: Seq<char>, other: Seq<char>)
    ensures
        !needs_engine(engine_ready_spec(s, language), language),
        other != language ==> needs_engine(engine_ready_spec(s, language), other),
        needs_engine(switch_spec(s, language), language),
{
}

/// Stopping twice is stopping once, and a stop leaves the language and the
/// engine as they were.
pub proof fn law_tts_stop_idempotent(s: TtsStateView)
    ensures
        tts_stop_spec(tts_stop_spec(s)) == tts_stop_spec(s),
        tts_stop_spec(s).current_language == s.current_language,
        tts_stop_spec(s).initialized == s.initialized,
{
}

/// The configuration names each language once (as the keys of its TOML
/// table do).
pub open spec fn language_keys_distinct(config: AppConfig) -> bool {
    keys_distinct(key_views(config.tts.languages@))
}

/// In a validated configuration that names each language once, every
/// enabled local language is found with its own settings and its model is
/// in the registry, so looking up its model files fails neither for the
/// language nor for the model.
pub proof fn law_validated_language_is_speakable(config: AppConfig, r: RegistrySpec, i: int)
    requires
        validation_result(config, r) is Ok,
        language_keys_distinct(config),
        0 <= i < config.tts.languages@.len(),
        config.tts.languages@[i].1.enabled,
        config.tts.languages@[i].1.provider == Provider::Local,
    ensures
        ({
            let lang = config.tts.languages@[i].0@;
            let cfg = config.tts.languages@[i].1;
            &&& language_config(config, lang) == Some(cfg)
            &&& find_tts_model(r, lang, cfg.model_id@) is Some
        }),
{
    lemma_distinct_lookup(key_views(config.tts.languages@), i);
    law_validated_config_resolves(config, r, i);
}

} // verus!
