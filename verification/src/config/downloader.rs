//! The downloads a configuration needs.
//!
//! Every enabled TTS language whose model is in the registry is unpacked to
//! `{models_dir}/tts/{lang}`; the configured Whisper model, when in the
//! registry, to `{models_dir}/whisper/{id}`. Polish models additionally get
//! their `sample_rate` metadata added to the first `.onnx` file.

use vstd::prelude::*;
use crate::config::keyed::lookup;
use crate::config::models::{AppConfig, Provider, TtsLanguageConfig};
use crate::config::validator::{ModelRegistry, RegistrySpec, TtsModelSpec, find_tts_model, strings_view, languages_result, validation_result, lemma_languages_ok};
use crate::services::models::manager::{ModelManager, ends_with};
use crate::utils::chars::{chars_of, str_eq};
use crate::utils::path::path_join;

verus! {

/// One model to fetch and unpack.
#[derive(Debug, Clone)]
pub struct DownloadTask {
    pub url: String,
    pub model_id: String,
    pub extract_to: String,
    pub required_files: Vec<String>,
    /// The model file that needs `sample_rate` metadata after unpacking.
    pub sample_rate_model_file: Option<String>,
}

/// The mathematical value of a `DownloadTask`.
#[verifier::ext_equal]
pub struct DownloadTaskSpec {
    pub url: Seq<char>,
    pub model_id: Seq<char>,
    pub extract_to: Seq<char>,
    pub required_files: Seq<Seq<char>>,
    pub sample_rate_model_file: Option<Seq<char>>,
}

impl View for DownloadTask {
    type V = DownloadTaskSpec;

    open spec fn view(&self) -> DownloadTaskSpec {
        DownloadTaskSpec {
            url: self.url@,
            model_id: self.model_id@,
            extract_to: self.extract_to@,
            required_files: strings_view(self.required_files@),
            sample_rate_model_file: match self.sample_rate_model_file {
                Some(f) => Some(f@),
                None => None,
            },
        }
    }
}

/// The first file name ending with `.onnx`.
pub open spec fn first_onnx(files: Seq<Seq<char>>) -> Option<Seq<char>>
    decreases files.len(),
{
    if files.len() == 0 {
        None
    } else if ends_with(files[0], ".onnx"@) {
        Some(files[0])
    } else {
        first_onnx(files.drop_first())
    }
}

/// The download of the TTS model `m` of language `lang`.
pub open spec fn tts_task(dir: Seq<char>, lang: Seq<char>, m: TtsModelSpec) -> DownloadTaskSpec {
    DownloadTaskSpec {
        url: m.download_url,
        model_id: m.id,
        extract_to: path_join(path_join(dir, "tts"@), lang),
        required_files: m.required_files,
        sample_rate_model_file: if lang == "pl"@ { first_onnx(m.required_files) } else { None },
    }
}

/// The TTS downloads, in configuration order.
pub open spec fn tts_tasks(dir: Seq<char>, r: RegistrySpec, es: Seq<(String, TtsLanguageConfig)>) -> Seq<DownloadTaskSpec>
    decreases es.len(),
{
    if es.len() == 0 {
        seq![]
    } else {
        let prev = tts_tasks(dir, r, es.drop_last());
        let lang = es.last().0@;
        let cfg = es.last().1;
        if cfg.enabled {
            match find_tts_model(r, lang, cfg.model_id@) {
                Some(m) => prev.push(tts_task(dir, lang, m)),
                None => prev,
            }
        } else {
            prev
        }
    }
}

/// All downloads a configuration needs: the TTS models, then the Whisper model.
pub open spec fn download_plan_for(dir: Seq<char>, r: RegistrySpec, config: AppConfig) -> Seq<DownloadTaskSpec> {
    let tts = tts_tasks(dir, r, config.tts.languages@);
    match lookup(r.stt, config.stt.model_id@) {
        Some(m) => tts.push(DownloadTaskSpec {
            url: m.download_url,
            model_id: m.id,
            extract_to: path_join(path_join(dir, "whisper"@), m.id),
            required_files: m.required_files,
            sample_rate_model_file: None,
        }),
        None => tts,
    }
}

fn clone_strings(v: &Vec<String>) -> (r: Vec<String>)
    ensures
        strings_view(r@) == strings_view(v@),
{
    let mut out: Vec<String> = Vec::new();
    let mut i: usize = 0;
    while i < v.len()
        invariant
            i <= v@.len(),
            strings_view(out@) == strings_view(v@).take(i as int),
        decreases v.len() - i,
    {
        let ghost prev = out@;
        let s = v[i].clone();
        out.push(s);
        assert(strings_view(out@) == strings_view(prev).push(s@));
        assert(strings_view(v@).take(i + 1) == strings_view(v@).take(i as int).push(s@));
        i += 1;
    }
    assert(strings_view(v@).take(v@.len() as int) == strings_view(v@));
    out
}

/// The first file name ending with `.onnx`.
pub fn first_onnx_file(files: &Vec<String>) -> (r: Option<String>)
    ensures
        match r {
            Some(f) => first_onnx(strings_view(files@)) == Some(f@),
            None => first_onnx(strings_view(files@)) is None,
        },
{
    let suffix = chars_of(".onnx");
    let mut i: usize = 0;
    assert(strings_view(files@).skip(0) == strings_view(files@));
    while i < files.len()
        invariant
            i <= files@.len(),
            suffix@ == ".onnx"@,
            first_onnx(strings_view(files@)) == first_onnx(strings_view(files@).skip(i as int)),
        decreases files.len() - i,
    {
        let cs = chars_of(files[i].as_str());
        let ghost rest = strings_view(files@).skip(i as int);
        assert(rest[0] == files@[i as int]@);
        assert(rest.drop_first() == strings_view(files@).skip(i + 1));
        if crate::services::models::manager::chars_end_with(cs.as_slice(), suffix.as_slice()) {
            return Some(files[i].clone());
        }
        i += 1;
    }
    None
}

/// Model downloader that uses configuration
pub struct ConfigModelDownloader;

impl ConfigModelDownloader {
    /// The downloads that the configuration needs, in order.
    pub fn plan(config: &AppConfig, registry: &ModelRegistry, manager: &ModelManager) -> (r: Vec<DownloadTask>)
        ensures
            r@.map_values(|t: DownloadTask| t@) == download_plan_for(manager.dir(), registry@, *config),
    {
        let ghost dir = manager.dir();
        let ghost reg = registry@;
        let langs = &config.tts.languages;
        let mut out: Vec<DownloadTask> = Vec::new();
        let mut i: usize = 0;
        assert(langs@.take(0) == Seq::<(String, TtsLanguageConfig)>::empty());
        assert(out@.map_values(|t: DownloadTask| t@) == Seq::<DownloadTaskSpec>::empty());
        while i < langs.len()
            invariant
                i <= langs@.len(),
                langs@ == config.tts.languages@,
                dir == manager.dir(),
                reg == registry@,
                out@.map_values(|t: DownloadTask| t@) == tts_tasks(dir, reg, langs@.take(i as int)),
            decreases langs.len() - i,
        {
            assert(langs@.take(i + 1).drop_last() == langs@.take(i as int));
            assert(langs@.take(i + 1).last() == langs@[i as int]);
            let lang = &langs[i].0;
            let cfg = &langs[i].1;
            if cfg.enabled {
                if let Some(info) = registry.get_tts_model(lang.as_str(), cfg.model_id.as_str()) {
                    let is_pl = str_eq(lang.as_str(), "pl");
                    let sample_rate_model_file = if is_pl {
                        first_onnx_file(&info.required_files)
                    } else {
                        None
                    };
                    let task = DownloadTask {
                        url: info.download_url.clone(),
                        model_id: info.id.clone(),
                        extract_to: manager.tts_model_dir(lang.as_str()),
                        required_files: clone_strings(&info.required_files),
                        sample_rate_model_file,
                    };
                    let ghost prev = out@;
                    out.push(task);
                    proof {
                        assert(task@ == tts_task(dir, lang@, info@));
                        assert(out@.map_values(|t: DownloadTask| t@) == prev.map_values(|t: DownloadTask| t@).push(task@));
                    }
                }
            }
            i += 1;
        }
        assert(langs@.take(langs@.len() as int) == langs@);
        if let Some(info) = registry.get_stt_model(config.stt.model_id.as_str()) {
            let task = DownloadTask {
                url: info.download_url.clone(),
                model_id: info.id.clone(),
                extract_to: manager.stt_model_dir(info.id.as_str()),
                required_files: clone_strings(&info.required_files),
                sample_rate_model_file: None,
            };
            let ghost prev = out@;
            out.push(task);
            assert(out@.map_values(|t: DownloadTask| t@) == prev.map_values(|t: DownloadTask| t@).push(task@));
        }
        out
    }
}

/// How many languages are enabled.
pub open spec fn enabled_count(es: Seq<(String, TtsLanguageConfig)>) -> nat
    decreases es.len(),
{
    if es.len() == 0 {
        0
    } else {
        enabled_count(es.drop_last()) + if es.last().1.enabled { 1nat } else { 0nat }
    }
}

/// Every enabled language uses the local provider.
pub open spec fn all_local(es: Seq<(String, TtsLanguageConfig)>) -> bool {
    forall|i: int| 0 <= i < es.len() && #[trigger] es[i].1.enabled ==> es[i].1.provider == Provider::Local
}

proof fn lemma_tts_tasks_len(dir: Seq<char>, r: RegistrySpec, es: Seq<(String, TtsLanguageConfig)>)
    requires
        languages_result(r, es) is Ok,
        all_local(es),
    ensures
        tts_tasks(dir, r, es).len() == enabled_count(es),
    decreases es.len(),
{
    if es.len() > 0 {
        assert(all_local(es.drop_last())) by {
            assert forall|i: int| 0 <= i < es.drop_last().len() && #[trigger] es.drop_last()[i].1.enabled
                implies es.drop_last()[i].1.provider == Provider::Local by {
                assert(es.drop_last()[i] == es[i]);
            }
        }
        lemma_tts_tasks_len(dir, r, es.drop_last());
        if es.last().1.enabled {
            assert(es[es.len() - 1].1.enabled);
            lemma_languages_ok(r, es, es.len() - 1);
        }
    }
}

/// A validated configuration that runs locally is downloaded completely:
/// one task per enabled language, then one for the Whisper model, fetched
/// from the registry's URL into `{models_dir}/whisper/{id}`.
pub proof fn law_validated_plan_is_complete(dir: Seq<char>, r: RegistrySpec, config: AppConfig)
    requires
        validation_result(config, r) is Ok,
        all_local(config.tts.languages@),
        config.stt.provider == Provider::Local,
    ensures
        download_plan_for(dir, r, config).len() == enabled_count(config.tts.languages@) + 1,
        ({
            let m = lookup(r.stt, config.stt.model_id@)->0;
            let last = download_plan_for(dir, r, config).last();
            &&& last.url == m.download_url
            &&& last.model_id == m.id
            &&& last.extract_to == path_join(path_join(dir, "whisper"@), m.id)
        }),
{
    lemma_tts_tasks_len(dir, r, config.tts.languages@);
}

} // verus!
