//! Model registry and configuration validation.

use vstd::prelude::*;
use crate::config::keyed::{find_key, first_key_index, key_views, keys_of, keys_distinct, lemma_distinct_lookup, lemma_present_lookup, lemma_first_key_index, lemma_first_key_index_range, lemma_same_keys, lookup};
use crate::config::models::{AppConfig, Provider, TtsLanguageConfig};
use crate::utils::chars::str_eq;

verus! {

/// The views of a sequence of strings.
pub open spec fn strings_view(v: Seq<String>) -> Seq<Seq<char>> {
    v.map_values(|s: String| s@)
}

/// The view of an optional string.
pub open spec fn opt_view(o: Option<String>) -> Option<Seq<char>> {
    match o {
        Some(s) => Some(s@),
        None => None,
    }
}

/// A TTS model of the registry.
#[derive(Debug, Clone)]
pub struct TtsModelInfo {
    pub id: String,
    pub download_url: String,
    pub required_files: Vec<String>,
    /// Optional: for models that need JSON to generate tokens.txt
    pub json_url: Option<String>,
}

/// The mathematical value of a `TtsModelInfo`.
#[verifier::ext_equal]
pub struct TtsModelSpec {
    pub id: Seq<char>,
    pub download_url: Seq<char>,
    pub required_files: Seq<Seq<char>>,
    pub json_url: Option<Seq<char>>,
}

impl View for TtsModelInfo {
    type V = TtsModelSpec;

    open spec fn view(&self) -> TtsModelSpec {
        TtsModelSpec {
            id: self.id@,
            download_url: self.download_url@,
            required_files: strings_view(self.required_files@),
            json_url: opt_view(self.json_url),
        }
    }
}

/// A Whisper speech-recognition model of the registry.
#[derive(Debug, Clone)]
pub struct SttModelInfo {
    pub id: String,
    pub download_url: String,
    pub required_files: Vec<String>,
    pub size: String,
    pub language_code: String,
}

/// The mathematical value of an `SttModelInfo`.
#[verifier::ext_equal]
pub struct SttModelSpec {
    pub id: Seq<char>,
    pub download_url: Seq<char>,
    pub required_files: Seq<Seq<char>>,
    pub size: Seq<char>,
    pub language_code: Seq<char>,
}

impl View for SttModelInfo {
    type V = SttModelSpec;

    open spec fn view(&self) -> SttModelSpec {
        SttModelSpec {
            id: self.id@,
            download_url: self.download_url@,
            required_files: strings_view(self.required_files@),
            size: self.size@,
            language_code: self.language_code@,
        }
    }
}

/// The contents of a registry: TTS models per language code, and speech
/// recognition models per model ID, each in registry order.
#[verifier::ext_equal]
pub struct RegistrySpec {
    pub tts: Seq<(Seq<char>, Seq<TtsModelSpec>)>,
    pub stt: Seq<(Seq<char>, SttModelSpec)>,
}

/// Model registry (models per language, Whisper models per ID).
#[derive(Debug, Clone)]
pub struct ModelRegistry {
    tts_models: Vec<(String, Vec<TtsModelInfo>)>,
    stt_models: Vec<(String, SttModelInfo)>,
}

/// The views of a list of TTS models.
pub open spec fn tts_list_view(v: Seq<TtsModelInfo>) -> Seq<TtsModelSpec> {
    v.map_values(|m: TtsModelInfo| m@)
}

/// The view of the TTS section.
pub open spec fn tts_section_view(v: Seq<(String, Vec<TtsModelInfo>)>) -> Seq<(Seq<char>, Seq<TtsModelSpec>)> {
    v.map_values(|p: (String, Vec<TtsModelInfo>)| (p.0@, tts_list_view(p.1@)))
}

/// The view of the speech-recognition section.
pub open spec fn stt_section_view(v: Seq<(String, SttModelInfo)>) -> Seq<(Seq<char>, SttModelSpec)> {
    v.map_values(|p: (String, SttModelInfo)| (p.0@, p.1@))
}

impl View for ModelRegistry {
    type V = RegistrySpec;

    closed spec fn view(&self) -> RegistrySpec {
        RegistrySpec { tts: tts_section_view(self.tts_models@), stt: stt_section_view(self.stt_models@) }
    }
}

/// TTS models keyed by their IDs.
pub open spec fn models_by_id(ms: Seq<TtsModelSpec>) -> Seq<(Seq<char>, TtsModelSpec)> {
    ms.map_values(|m: TtsModelSpec| (m.id, m))
}

/// The first TTS model with ID `id` among the models of language `lang`.
pub open spec fn find_tts_model(r: RegistrySpec, lang: Seq<char>, id: Seq<char>) -> Option<TtsModelSpec> {
    match lookup(r.tts, lang) {
        Some(ms) => lookup(models_by_id(ms), id),
        None => None,
    }
}

/// Some language has a TTS model with ID `id`.
pub open spec fn has_tts_model_id(r: RegistrySpec, id: Seq<char>) -> bool {
    exists|i: int, j: int|
        0 <= i < r.tts.len() && 0 <= j < r.tts[i].1.len() && #[trigger] r.tts[i].1[j].id == id
}

/// The IDs of a list of TTS models.
pub open spec fn model_ids(ms: Seq<TtsModelSpec>) -> Seq<Seq<char>> {
    ms.map_values(|m: TtsModelSpec| m.id)
}

// ---------------------------------------------------------------------------
// Loading from the parsed registry document
// ---------------------------------------------------------------------------

/// A model entry as read from the registry document: each field is the
/// string found under its key (`None` when absent or not a string);
/// `required_files` is `None` when absent or not an array, and holds one
/// entry per array element (`None` for elements that are not strings).
#[derive(Debug, Clone)]
pub struct RawModel {
    pub id: Option<String>,
    pub download_url: Option<String>,
    pub required_files: Option<Vec<Option<String>>>,
    pub json_url: Option<String>,
    pub size: Option<String>,
    pub language_code: Option<String>,
}

/// The registry document: the `tts` object (language code to an array of
/// model objects) and the `stt_whisper` object (model ID to a model object).
/// A section is `None` when absent or not an object; an array is `None` when
/// not an array; a model is `None` when not an object.
#[derive(Debug, Clone)]
pub struct RegistryDocument {
    pub tts: Option<Vec<(String, Option<Vec<Option<RawModel>>>)>>,
    pub stt_whisper: Option<Vec<(String, Option<RawModel>)>>,
}

/// A required field of a model entry.
#[derive(Debug, Clone, Copy, PartialEq, Eq, Structural)]
pub enum ModelField {
    Id,
    DownloadUrl,
    RequiredFiles,
}

/// A model entry of the registry document lacks a required field.
#[derive(Debug, Clone)]
pub enum RegistryError {
    /// A TTS model of language `lang` (with ID `id`, when known) lacks `field`.
    MissingTtsField { lang: String, id: Option<String>, field: ModelField },
    /// The speech-recognition model under key `model` lacks `field`.
    MissingSttField { model: String, field: ModelField },
}

/// The mathematical value of a `RegistryError`.
pub enum RegistryErrorSpec {
    MissingTtsField { lang: Seq<char>, id: Option<Seq<char>>, field: ModelField },
    MissingSttField { model: Seq<char>, field: ModelField },
}

impl View for RegistryError {
    type V = RegistryErrorSpec;

    open spec fn view(&self) -> RegistryErrorSpec {
        match self {
            RegistryError::MissingTtsField { lang, id, field } => RegistryErrorSpec::MissingTtsField {
                lang: lang@,
                id: opt_view(*id),
                field: *field,
            },
            RegistryError::MissingSttField { model, field } => RegistryErrorSpec::MissingSttField {
                model: model@,
                field: *field,
            },
        }
    }
}

/// The strings among `xs`, in order.
pub open spec fn present_strings(xs: Seq<Option<String>>) -> Seq<Seq<char>>
    decreases xs.len(),
{
    if xs.len() == 0 {
        seq![]
    } else {
        let prev = present_strings(xs.drop_last());
        match xs.last() {
            Some(s) => prev.push(s@),
            None => prev,
        }
    }
}

/// A TTS model entry read from the document.
pub open spec fn tts_model_result(lang: Seq<char>, m: RawModel) -> Result<TtsModelSpec, RegistryErrorSpec> {
    match m.id {
        None => Err(RegistryErrorSpec::MissingTtsField { lang, id: None, field: ModelField::Id }),
        Some(id) => match m.download_url {
            None => Err(RegistryErrorSpec::MissingTtsField { lang, id: Some(id@), field: ModelField::DownloadUrl }),
            Some(url) => match m.required_files {
                None => Err(RegistryErrorSpec::MissingTtsField { lang, id: Some(id@), field: ModelField::RequiredFiles }),
                Some(files) => Ok(TtsModelSpec {
                    id: id@,
                    download_url: url@,
                    required_files: present_strings(files@),
                    json_url: opt_view(m.json_url),
                }),
            },
        },
    }
}

/// The TTS models of one language read from the document (non-objects skipped).
pub open spec fn tts_models_result(lang: Seq<char>, ms: Seq<Option<RawModel>>) -> Result<Seq<TtsModelSpec>, RegistryErrorSpec>
    decreases ms.len(),
{
    if ms.len() == 0 {
        Ok(seq![])
    } else {
        match tts_models_result(lang, ms.drop_last()) {
            Err(e) => Err(e),
            Ok(acc) => match ms.last() {
                None => Ok(acc),
                Some(m) => match tts_model_result(lang, m) {
                    Err(e) => Err(e),
                    Ok(x) => Ok(acc.push(x)),
                },
            },
        }
    }
}

/// The TTS section read from the document: languages whose value is not an
/// array, or whose array holds no model, are left out.
pub open spec fn tts_section_result(es: Seq<(String, Option<Vec<Option<RawModel>>>)>) -> Result<Seq<(Seq<char>, Seq<TtsModelSpec>)>, RegistryErrorSpec>
    decreases es.len(),
{
    if es.len() == 0 {
        Ok(seq![])
    } else {
        match tts_section_result(es.drop_last()) {
            Err(e) => Err(e),
            Ok(acc) => match es.last().1 {
                None => Ok(acc),
                Some(ms) => match tts_models_result(es.last().0@, ms@) {
                    Err(e) => Err(e),
                    Ok(list) => if list.len() > 0 {
                        Ok(acc.push((es.last().0@, list)))
                    } else {
                        Ok(acc)
                    },
                },
            },
        }
    }
}

/// "unknown" unless a string is given.
pub open spec fn or_unknown(o: Option<String>) -> Seq<char> {
    match o {
        Some(s) => s@,
        None => "unknown"@,
    }
}

/// A speech-recognition model entry read from the document.
pub open spec fn stt_model_result(key: Seq<char>, m: RawModel) -> Result<SttModelSpec, RegistryErrorSpec> {
    match m.id {
        None => Err(RegistryErrorSpec::MissingSttField { model: key, field: ModelField::Id }),
        Some(id) => match m.download_url {
            None => Err(RegistryErrorSpec::MissingSttField { model: key, field: ModelField::DownloadUrl }),
            Some(url) => match m.required_files {
                None => Err(RegistryErrorSpec::MissingSttField { model: key, field: ModelField::RequiredFiles }),
                Some(files) => Ok(SttModelSpec {
                    id: id@,
                    download_url: url@,
                    required_files: present_strings(files@),
                    size: or_unknown(m.size),
                    language_code: or_unknown(m.language_code),
                }),
            },
        },
    }
}

/// The speech-recognition section read from the document (non-objects skipped).
pub open spec fn stt_section_result(es: Seq<(String, Option<RawModel>)>) -> Result<Seq<(Seq<char>, SttModelSpec)>, RegistryErrorSpec>
    decreases es.len(),
{
    if es.len() == 0 {
        Ok(seq![])
    } else {
        match stt_section_result(es.drop_last()) {
            Err(e) => Err(e),
            Ok(acc) => match es.last().1 {
                None => Ok(acc),
                Some(m) => match stt_model_result(es.last().0@, m) {
                    Err(e) => Err(e),
                    Ok(x) => Ok(acc.push((es.last().0@, x))),
                },
            },
        }
    }
}

/// The registry that a document describes, or the first missing field
/// (TTS section first, each section in document order).
pub open spec fn registry_result(doc: RegistryDocument) -> Result<RegistrySpec, RegistryErrorSpec> {
    let tts = match doc.tts {
        None => Ok(seq![]),
        Some(es) => tts_section_result(es@),
    };
    match tts {
        Err(e) => Err(e),
        Ok(t) => {
            let stt = match doc.stt_whisper {
                None => Ok(seq![]),
                Some(es) => stt_section_result(es@),
            };
            match stt {
                Err(e) => Err(e),
                Ok(s) => Ok(RegistrySpec { tts: t, stt: s }),
            }
        },
    }
}


fn clone_opt(o: &Option<String>) -> (r: Option<String>)
    ensures
        opt_view(r) == opt_view(*o),
{
    match o {
        Some(s) => Some(s.clone()),
        None => None,
    }
}

fn present_strings_exec(xs: &Vec<Option<String>>) -> (r: Vec<String>)
    ensures
        strings_view(r@) == present_strings(xs@),
{
    let mut out: Vec<String> = Vec::new();
    let mut i: usize = 0;
    assert(xs@.take(0) == Seq::<Option<String>>::empty());
    assert(strings_view(out@) == Seq::<Seq<char>>::empty());
    while i < xs.len()
        invariant
            i <= xs@.len(),
            strings_view(out@) == present_strings(xs@.take(i as int)),
        decreases xs.len() - i,
    {
        let ghost prev = out@;
        match &xs[i] {
            Some(s) => {
                out.push(s.clone());
                assert(strings_view(out@) == strings_view(prev).push(s@));
            },
            None => {},
        }
        assert(xs@.take(i + 1).drop_last() == xs@.take(i as int));
        i += 1;
    }
    assert(xs@.take(xs@.len() as int) == xs@);
    out
}

fn tts_model_from_raw(lang: &String, m: &RawModel) -> (r: Result<TtsModelInfo, RegistryError>)
    ensures
        match r {
            Ok(x) => tts_model_result(lang@, *m) == Ok::<TtsModelSpec, RegistryErrorSpec>(x@),
            Err(e) => tts_model_result(lang@, *m) == Err::<TtsModelSpec, RegistryErrorSpec>(e@),
        },
{
    let id = match &m.id {
        Some(id) => id,
        None => {
            return Err(RegistryError::MissingTtsField { lang: lang.clone(), id: None, field: ModelField::Id });
        },
    };
    let url = match &m.download_url {
        Some(u) => u,
        None => {
            return Err(
                RegistryError::MissingTtsField {
                    lang: lang.clone(),
                    id: Some(id.clone()),
                    field: ModelField::DownloadUrl,
                },
            );
        },
    };
    let files = match &m.required_files {
        Some(f) => present_strings_exec(f),
        None => {
            return Err(
                RegistryError::MissingTtsField {
                    lang: lang.clone(),
                    id: Some(id.clone()),
                    field: ModelField::RequiredFiles,
                },
            );
        },
    };
    Ok(TtsModelInfo { id: id.clone(), download_url: url.clone(), required_files: files, json_url: clone_opt(&m.json_url) })
}

fn tts_models_from_raw(lang: &String, ms: &Vec<Option<RawModel>>) -> (r: Result<Vec<TtsModelInfo>, RegistryError>)
    ensures
        match r {
            Ok(x) => tts_models_result(lang@, ms@) == Ok::<Seq<TtsModelSpec>, RegistryErrorSpec>(tts_list_view(x@)),
            Err(e) => tts_models_result(lang@, ms@) == Err::<Seq<TtsModelSpec>, RegistryErrorSpec>(e@),
        },
{
    let mut out: Vec<TtsModelInfo> = Vec::new();
    let mut i: usize = 0;
    assert(ms@.take(0) == Seq::<Option<RawModel>>::empty());
    assert(tts_list_view(out@) == Seq::<TtsModelSpec>::empty());
    while i < ms.len()
        invariant
            i <= ms@.len(),
            tts_models_result(lang@, ms@.take(i as int)) == Ok::<Seq<TtsModelSpec>, RegistryErrorSpec>(tts_list_view(out@)),
        decreases ms.len() - i,
    {
        assert(ms@.take(i + 1).drop_last() == ms@.take(i as int));
        let ghost prev = out@;
        match &ms[i] {
            Some(m) => {
                match tts_model_from_raw(lang, m) {
                    Ok(x) => {
                        out.push(x);
                        assert(tts_list_view(out@) == tts_list_view(prev).push(x@));
                    },
                    Err(e) => {
                        proof {
                            lemma_error_persists_tts_models(lang@, ms@, i as int);
                        }
                        return Err(e);
                    },
                }
            },
            None => {},
        }
        i += 1;
    }
    assert(ms@.take(ms@.len() as int) == ms@);
    Ok(out)
}

proof fn lemma_error_persists_tts_models(lang: Seq<char>, ms: Seq<Option<RawModel>>, i: int)
    requires
        0 <= i < ms.len(),
        tts_models_result(lang, ms.take(i + 1)) is Err,
    ensures
        tts_models_result(lang, ms) == tts_models_result(lang, ms.take(i + 1)),
    decreases ms.len() - i,
{
    if i + 1 < ms.len() {
        assert(ms.take(i + 2).drop_last() == ms.take(i + 1));
        lemma_error_persists_tts_models(lang, ms, i + 1);
    } else {
        assert(ms.take(i + 1) == ms);
    }
}


proof fn lemma_error_persists_tts_section(es: Seq<(String, Option<Vec<Option<RawModel>>>)>, i: int)
    requires
        0 <= i < es.len(),
        tts_section_result(es.take(i + 1)) is Err,
    ensures
        tts_section_result(es) == tts_section_result(es.take(i + 1)),
    decreases es.len() - i,
{
    if i + 1 < es.len() {
        assert(es.take(i + 2).drop_last() == es.take(i + 1));
        lemma_error_persists_tts_section(es, i + 1);
    } else {
        assert(es.take(i + 1) == es);
    }
}

fn tts_section_from_raw(es: &Vec<(String, Option<Vec<Option<RawModel>>>)>) -> (r: Result<Vec<(String, Vec<TtsModelInfo>)>, RegistryError>)
    ensures
        match r {
            Ok(x) => tts_section_result(es@) == Ok::<Seq<(Seq<char>, Seq<TtsModelSpec>)>, RegistryErrorSpec>(tts_section_view(x@)),
            Err(e) => tts_section_result(es@) == Err::<Seq<(Seq<char>, Seq<TtsModelSpec>)>, RegistryErrorSpec>(e@),
        },
{
    let mut out: Vec<(String, Vec<TtsModelInfo>)> = Vec::new();
    let mut i: usize = 0;
    assert(es@.take(0) == Seq::<(String, Option<Vec<Option<RawModel>>>)>::empty());
    assert(tts_section_view(out@) == Seq::<(Seq<char>, Seq<TtsModelSpec>)>::empty());
    while i < es.len()
        invariant
            i <= es@.len(),
            tts_section_result(es@.take(i as int)) == Ok::<Seq<(Seq<char>, Seq<TtsModelSpec>)>, RegistryErrorSpec>(tts_section_view(out@)),
        decreases es.len() - i,
    {
        assert(es@.take(i + 1).drop_last() == es@.take(i as int));
        let ghost prev = out@;
        let entry = &es[i];
        match &entry.1 {
            Some(ms) => {
                match tts_models_from_raw(&entry.0, ms) {
                    Ok(list) => {
                        if list.len() > 0 {
                            out.push((entry.0.clone(), list));
                            assert(tts_section_view(out@) == tts_section_view(prev).push((entry.0@, tts_list_view(list@))));
                        }
                    },
                    Err(e) => {
                        proof {
                            lemma_error_persists_tts_section(es@, i as int);
                        }
                        return Err(e);
                    },
                }
            },
            None => {},
        }
        i += 1;
    }
    assert(es@.take(es@.len() as int) == es@);
    Ok(out)
}

fn or_unknown_exec(o: &Option<String>) -> (r: String)
    ensures
        r@ == or_unknown(*o),
{
    match o {
        Some(s) => s.clone(),
        None => "unknown".to_owned(),
    }
}

fn stt_model_from_raw(key: &String, m: &RawModel) -> (r: Result<SttModelInfo, RegistryError>)
    ensures
        match r {
            Ok(x) => stt_model_result(key@, *m) == Ok::<SttModelSpec, RegistryErrorSpec>(x@),
            Err(e) => stt_model_result(key@, *m) == Err::<SttModelSpec, RegistryErrorSpec>(e@),
        },
{
    let id = match &m.id {
        Some(id) => id,
        None => {
            return Err(RegistryError::MissingSttField { model: key.clone(), field: ModelField::Id });
        },
    };
    let url = match &m.download_url {
        Some(u) => u,
        None => {
            return Err(RegistryError::MissingSttField { model: key.clone(), field: ModelField::DownloadUrl });
        },
    };
    let files = match &m.required_files {
        Some(f) => present_strings_exec(f),
        None => {
            return Err(RegistryError::MissingSttField { model: key.clone(), field: ModelField::RequiredFiles });
        },
    };
    Ok(
        SttModelInfo {
            id: id.clone(),
            download_url: url.clone(),
            required_files: files,
            size: or_unknown_exec(&m.size),
            language_code: or_unknown_exec(&m.language_code),
        },
    )
}

proof fn lemma_error_persists_stt_section(es: Seq<(String, Option<RawModel>)>, i: int)
    requires
        0 <= i < es.len(),
        stt_section_result(es.take(i + 1)) is Err,
    ensures
        stt_section_result(es) == stt_section_result(es.take(i + 1)),
    decreases es.len() - i,
{
    if i + 1 < es.len() {
        assert(es.take(i + 2).drop_last() == es.take(i + 1));
        lemma_error_persists_stt_section(es, i + 1);
    } else {
        assert(es.take(i + 1) == es);
    }
}

fn stt_section_from_raw(es: &Vec<(String, Option<RawModel>)>) -> (r: Result<Vec<(String, SttModelInfo)>, RegistryError>)
    ensures
        match r {
            Ok(x) => stt_section_result(es@) == Ok::<Seq<(Seq<char>, SttModelSpec)>, RegistryErrorSpec>(stt_section_view(x@)),
            Err(e) => stt_section_result(es@) == Err::<Seq<(Seq<char>, SttModelSpec)>, RegistryErrorSpec>(e@),
        },
{
    let mut out: Vec<(String, SttModelInfo)> = Vec::new();
    let mut i: usize = 0;
    assert(es@.take(0) == Seq::<(String, Option<RawModel>)>::empty());
    assert(stt_section_view(out@) == Seq::<(Seq<char>, SttModelSpec)>::empty());
    while i < es.len()
        invariant
            i <= es@.len(),
            stt_section_result(es@.take(i as int)) == Ok::<Seq<(Seq<char>, SttModelSpec)>, RegistryErrorSpec>(stt_section_view(out@)),
        decreases es.len() - i,
    {
        assert(es@.take(i + 1).drop_last() == es@.take(i as int));
        let ghost prev = out@;
        let entry = &es[i];
        match &entry.1 {
            Some(m) => {
                match stt_model_from_raw(&entry.0, m) {
                    Ok(x) => {
                        out.push((entry.0.clone(), x));
                        assert(stt_section_view(out@) == stt_section_view(prev).push((entry.0@, x@)));
                    },
                    Err(e) => {
                        proof {
                            lemma_error_persists_stt_section(es@, i as int);
                        }
                        return Err(e);
                    },
                }
            },
            None => {},
        }
        i += 1;
    }
    assert(es@.take(es@.len() as int) == es@);
    Ok(out)
}

impl ModelRegistry {
    /// Builds the registry from the parsed registry document.
    ///
    /// Fails on the first model entry (TTS section first, in document order)
    /// that lacks its ID, download URL or file list.
    pub fn load(doc: &RegistryDocument) -> (r: Result<ModelRegistry, RegistryError>)
        ensures
            match r {
                Ok(reg) => registry_result(*doc) == Ok::<RegistrySpec, RegistryErrorSpec>(reg@)
                    && (doc_keys_distinct(*doc) ==> keys_distinct(reg@.tts) && keys_distinct(reg@.stt)),
                Err(e) => registry_result(*doc) == Err::<RegistrySpec, RegistryErrorSpec>(e@),
            },
    {
        let tts_models = match &doc.tts {
            Some(es) => tts_section_from_raw(es)?,
            None => Vec::new(),
        };
        assert(doc.tts is None ==> tts_section_view(tts_models@) == Seq::<(Seq<char>, Seq<TtsModelSpec>)>::empty());
        let stt_models = match &doc.stt_whisper {
            Some(es) => stt_section_from_raw(es)?,
            None => Vec::new(),
        };
        assert(doc.stt_whisper is None ==> stt_section_view(stt_models@) == Seq::<(Seq<char>, SttModelSpec)>::empty());
        proof {
            if doc_keys_distinct(*doc) {
                law_registry_keys_distinct(*doc);
            }
        }
        Ok(ModelRegistry { tts_models, stt_models })
    }
}


/// The position of the first model with ID `id` in `v`.
fn find_model(v: &Vec<TtsModelInfo>, id: &str) -> (r: Option<usize>)
    ensures
        match r {
            Some(j) => j < v@.len() && lookup(models_by_id(tts_list_view(v@)), id@) == Some(v@[j as int]@),
            None => lookup(models_by_id(tts_list_view(v@)), id@) is None,
        },
{
    let ghost ms = models_by_id(tts_list_view(v@));
    let mut j: usize = 0;
    while j < v.len()
        invariant
            j <= v@.len(),
            ms == models_by_id(tts_list_view(v@)),
            forall|k: int| 0 <= k < j ==> (#[trigger] ms[k]).0 != id@,
        decreases v.len() - j,
    {
        if str_eq(v[j].id.as_str(), id) {
            proof {
                lemma_first_key_index(ms, id@, j as int);
            }
            return Some(j);
        }
        j += 1;
    }
    proof {
        lemma_first_key_index(ms, id@, j as int);
    }
    None
}

impl ModelRegistry {
    proof fn lemma_tts_keys(&self, lang: Seq<char>)
        ensures
            first_key_index(self@.tts, lang) == first_key_index(key_views(self.tts_models@), lang),
    {
        let a = self@.tts;
        let b = key_views(self.tts_models@);
        assert forall|i: int| 0 <= i < a.len() implies (#[trigger] a[i]).0 == b[i].0 by {}
        lemma_same_keys(a, b, lang);
    }

    proof fn lemma_stt_keys(&self, id: Seq<char>)
        ensures
            first_key_index(self@.stt, id) == first_key_index(key_views(self.stt_models@), id),
    {
        let a = self@.stt;
        let b = key_views(self.stt_models@);
        assert forall|i: int| 0 <= i < a.len() implies (#[trigger] a[i]).0 == b[i].0 by {}
        lemma_same_keys(a, b, id);
    }

    /// Get TTS model info by language code and model ID
    pub fn get_tts_model(&self, lang_code: &str, model_id: &str) -> (r: Option<&TtsModelInfo>)
        ensures
            match r {
                Some(m) => find_tts_model(self@, lang_code@, model_id@) == Some(m@),
                None => find_tts_model(self@, lang_code@, model_id@) is None,
            },
    {
        let models = self.get_tts_models_for_language(lang_code)?;
        match find_model(models, model_id) {
            Some(j) => Some(&models[j]),
            None => None,
        }
    }

    /// Get all TTS models for a language
    pub fn get_tts_models_for_language(&self, lang_code: &str) -> (r: Option<&Vec<TtsModelInfo>>)
        ensures
            match r {
                Some(v) => lookup(self@.tts, lang_code@) == Some(tts_list_view(v@)),
                None => lookup(self@.tts, lang_code@) is None,
            },
    {
        proof {
            self.lemma_tts_keys(lang_code@);
        }
        match find_key(&self.tts_models, lang_code) {
            Some(i) => Some(&self.tts_models[i].1),
            None => None,
        }
    }

    /// Check if a TTS model ID exists for any language
    pub fn is_valid_tts_model_id(&self, model_id: &str) -> (b: bool)
        ensures
            b == has_tts_model_id(self@, model_id@),
    {
        let ghost r = self@;
        let mut i: usize = 0;
        while i < self.tts_models.len()
            invariant
                i <= self.tts_models@.len(),
                r == self@,
                r.tts.len() == self.tts_models@.len(),
                forall|a: int, b: int|
                    0 <= a < i && 0 <= b < r.tts[a].1.len() ==> #[trigger] r.tts[a].1[b].id != model_id@,
            decreases self.tts_models.len() - i,
        {
            let models = &self.tts_models[i].1;
            let mut j: usize = 0;
            while j < models.len()
                invariant
                    i < self.tts_models@.len(),
                    models == self.tts_models@[i as int].1,
                    r == self@,
                    r.tts[i as int].1.len() == models@.len(),
                    j <= models@.len(),
                    forall|b: int| 0 <= b < j ==> #[trigger] r.tts[i as int].1[b].id != model_id@,
                decreases models.len() - j,
            {
                if str_eq(models[j].id.as_str(), model_id) {
                    assert(r.tts[i as int].1[j as int].id == model_id@);
                    return true;
                }
                j += 1;
            }
            i += 1;
        }
        false
    }

    /// Get STT model info by model ID
    pub fn get_stt_model(&self, model_id: &str) -> (r: Option<&SttModelInfo>)
        ensures
            match r {
                Some(m) => lookup(self@.stt, model_id@) == Some(m@),
                None => lookup(self@.stt, model_id@) is None,
            },
    {
        proof {
            self.lemma_stt_keys(model_id@);
        }
        match find_key(&self.stt_models, model_id) {
            Some(i) => Some(&self.stt_models[i].1),
            None => None,
        }
    }

    /// Check if STT model ID is valid
    pub fn is_valid_stt_model_id(&self, model_id: &str) -> (b: bool)
        ensures
            b == lookup(self@.stt, model_id@) is Some,
    {
        proof {
            self.lemma_stt_keys(model_id@);
        }
        find_key(&self.stt_models, model_id).is_some()
    }
}


/// A configuration that the registry does not support.
#[derive(Debug, Clone)]
pub enum ConfigError {
    /// The registry document is incomplete.
    Registry(RegistryError),
    /// The default TTS language has no models; `supported` lists the languages.
    InvalidDefaultLanguage { lang: String, supported: Vec<String> },
    /// An enabled TTS language has no models; `supported` lists the languages.
    InvalidLanguage { lang: String, supported: Vec<String> },
    /// An enabled TTS language names a model it does not have.
    InvalidTtsModel { model_id: String, lang: String, available: Vec<String> },
    /// The speech-recognition model is unknown; `supported` lists the known ones.
    InvalidSttModel { model_id: String, supported: Vec<String> },
}

/// The mathematical value of a `ConfigError`.
pub enum ConfigErrorSpec {
    Registry(RegistryErrorSpec),
    InvalidDefaultLanguage { lang: Seq<char>, supported: Seq<Seq<char>> },
    InvalidLanguage { lang: Seq<char>, supported: Seq<Seq<char>> },
    InvalidTtsModel { model_id: Seq<char>, lang: Seq<char>, available: Seq<Seq<char>> },
    InvalidSttModel { model_id: Seq<char>, supported: Seq<Seq<char>> },
}

impl View for ConfigError {
    type V = ConfigErrorSpec;

    open spec fn view(&self) -> ConfigErrorSpec {
        match self {
            ConfigError::Registry(e) => ConfigErrorSpec::Registry(e@),
            ConfigError::InvalidDefaultLanguage { lang, supported } => ConfigErrorSpec::InvalidDefaultLanguage {
                lang: lang@,
                supported: strings_view(supported@),
            },
            ConfigError::InvalidLanguage { lang, supported } => ConfigErrorSpec::InvalidLanguage {
                lang: lang@,
                supported: strings_view(supported@),
            },
            ConfigError::InvalidTtsModel { model_id, lang, available } => ConfigErrorSpec::InvalidTtsModel {
                model_id: model_id@,
                lang: lang@,
                available: strings_view(available@),
            },
            ConfigError::InvalidSttModel { model_id, supported } => ConfigErrorSpec::InvalidSttModel {
                model_id: model_id@,
                supported: strings_view(supported@),
            },
        }
    }
}

/// The check of the configured TTS languages, in configuration order: each
/// enabled language with the local provider must have models and must name
/// one of them (a cloud language needs no local model).
pub open spec fn languages_result(r: RegistrySpec, es: Seq<(String, TtsLanguageConfig)>) -> Result<(), ConfigErrorSpec>
    decreases es.len(),
{
    if es.len() == 0 {
        Ok(())
    } else {
        match languages_result(r, es.drop_last()) {
            Err(e) => Err(e),
            Ok(()) => {
                let lang = es.last().0@;
                let cfg = es.last().1;
                if !cfg.enabled || cfg.provider != Provider::Local {
                    Ok(())
                } else {
                    match lookup(r.tts, lang) {
                        None => Err(ConfigErrorSpec::InvalidLanguage { lang, supported: keys_of(r.tts) }),
                        Some(ms) => if lookup(models_by_id(ms), cfg.model_id@) is None {
                            Err(ConfigErrorSpec::InvalidTtsModel { model_id: cfg.model_id@, lang, available: model_ids(ms) })
                        } else {
                            Ok(())
                        },
                    }
                }
            },
        }
    }
}

/// The validation of a configuration against the registry: the default TTS
/// language first, then the configured languages, then the STT model (only
/// with the local provider, which alone needs a Whisper model).
pub open spec fn validation_result(config: AppConfig, r: RegistrySpec) -> Result<(), ConfigErrorSpec> {
    if lookup(r.tts, config.tts.default@) is None {
        Err(ConfigErrorSpec::InvalidDefaultLanguage { lang: config.tts.default@, supported: keys_of(r.tts) })
    } else {
        match languages_result(r, config.tts.languages@) {
            Err(e) => Err(e),
            Ok(()) => if config.stt.provider == Provider::Local && lookup(r.stt, config.stt.model_id@) is None {
                Err(ConfigErrorSpec::InvalidSttModel { model_id: config.stt.model_id@, supported: keys_of(r.stt) })
            } else {
                Ok(())
            },
        }
    }
}

proof fn lemma_error_persists_languages(r: RegistrySpec, es: Seq<(String, TtsLanguageConfig)>, i: int)
    requires
        0 <= i < es.len(),
        languages_result(r, es.take(i + 1)) is Err,
    ensures
        languages_result(r, es) == languages_result(r, es.take(i + 1)),
    decreases es.len() - i,
{
    if i + 1 < es.len() {
        assert(es.take(i + 2).drop_last() == es.take(i + 1));
        lemma_error_persists_languages(r, es, i + 1);
    } else {
        assert(es.take(i + 1) == es);
    }
}

impl ModelRegistry {
    fn tts_languages(&self) -> (r: Vec<String>)
        ensures
            strings_view(r@) == keys_of(self@.tts),
    {
        let mut out: Vec<String> = Vec::new();
        let mut i: usize = 0;
        while i < self.tts_models.len()
            invariant
                i <= self.tts_models@.len(),
                strings_view(out@) == keys_of(self@.tts).take(i as int),
            decreases self.tts_models.len() - i,
        {
            let ghost prev = out@;
            let k = self.tts_models[i].0.clone();
            out.push(k);
            assert(strings_view(out@) == strings_view(prev).push(k@));
            assert(keys_of(self@.tts).take(i + 1) == keys_of(self@.tts).take(i as int).push(k@));
            i += 1;
        }
        assert(keys_of(self@.tts).take(i as int) == keys_of(self@.tts));
        out
    }

    fn stt_model_ids(&self) -> (r: Vec<String>)
        ensures
            strings_view(r@) == keys_of(self@.stt),
    {
        let mut out: Vec<String> = Vec::new();
        let mut i: usize = 0;
        while i < self.stt_models.len()
            invariant
                i <= self.stt_models@.len(),
                strings_view(out@) == keys_of(self@.stt).take(i as int),
            decreases self.stt_models.len() - i,
        {
            let ghost prev = out@;
            let k = self.stt_models[i].0.clone();
            out.push(k);
            assert(strings_view(out@) == strings_view(prev).push(k@));
            assert(keys_of(self@.stt).take(i + 1) == keys_of(self@.stt).take(i as int).push(k@));
            i += 1;
        }
        assert(keys_of(self@.stt).take(i as int) == keys_of(self@.stt));
        out
    }
}

fn ids_of(v: &Vec<TtsModelInfo>) -> (r: Vec<String>)
    ensures
        strings_view(r@) == model_ids(tts_list_view(v@)),
{
    let mut out: Vec<String> = Vec::new();
    let mut i: usize = 0;
    while i < v.len()
        invariant
            i <= v@.len(),
            strings_view(out@) == model_ids(tts_list_view(v@)).take(i as int),
        decreases v.len() - i,
    {
        let ghost prev = out@;
        let k = v[i].id.clone();
        out.push(k);
        assert(strings_view(out@) == strings_view(prev).push(k@));
        assert(model_ids(tts_list_view(v@)).take(i + 1) == model_ids(tts_list_view(v@)).take(i as int).push(k@));
        i += 1;
    }
    assert(model_ids(tts_list_view(v@)).take(i as int) == model_ids(tts_list_view(v@)));
    out
}

/// Configuration validator
pub struct ConfigValidator;

impl ConfigValidator {
    /// Validate configuration against the model registry
    pub fn validate(config: &AppConfig, registry: &ModelRegistry) -> (r: Result<(), ConfigError>)
        ensures
            match r {
                Ok(()) => validation_result(*config, registry@) == Ok::<(), ConfigErrorSpec>(()),
                Err(e) => validation_result(*config, registry@) == Err::<(), ConfigErrorSpec>(e@),
            },
    {
        let ghost reg = registry@;
        if registry.get_tts_models_for_language(config.tts.default.as_str()).is_none() {
            return Err(
                ConfigError::InvalidDefaultLanguage {
                    lang: config.tts.default.clone(),
                    supported: registry.tts_languages(),
                },
            );
        }
        let langs = &config.tts.languages;
        let mut i: usize = 0;
        assert(langs@.take(0) == Seq::<(String, TtsLanguageConfig)>::empty());
        while i < langs.len()
            invariant
                i <= langs@.len(),
                reg == registry@,
                langs@ == config.tts.languages@,
                lookup(reg.tts, config.tts.default@) is Some,
                languages_result(reg, langs@.take(i as int)) == Ok::<(), ConfigErrorSpec>(()),
            decreases langs.len() - i,
        {
            assert(langs@.take(i + 1).drop_last() == langs@.take(i as int));
            assert(langs@.take(i + 1).last() == langs@[i as int]);
            let lang_code = &langs[i].0;
            let lang_config = &langs[i].1;
            if lang_config.enabled && lang_config.provider == Provider::Local {
                match registry.get_tts_models_for_language(lang_code.as_str()) {
                    None => {
                        let err = ConfigError::InvalidLanguage {
                            lang: lang_code.clone(),
                            supported: registry.tts_languages(),
                        };
                        proof {
                            assert(languages_result(reg, langs@.take(i + 1)) == Err::<(), ConfigErrorSpec>(err@));
                            lemma_error_persists_languages(reg, langs@, i as int);
                            assert(languages_result(reg, langs@) == Err::<(), ConfigErrorSpec>(err@));
                        }
                        return Err(err);
                    },
                    Some(models) => {
                        if find_model(models, lang_config.model_id.as_str()).is_none() {
                            let err = ConfigError::InvalidTtsModel {
                                model_id: lang_config.model_id.clone(),
                                lang: lang_code.clone(),
                                available: ids_of(models),
                            };
                            proof {
                                assert(languages_result(reg, langs@.take(i + 1)) == Err::<(), ConfigErrorSpec>(err@));
                                lemma_error_persists_languages(reg, langs@, i as int);
                                assert(languages_result(reg, langs@) == Err::<(), ConfigErrorSpec>(err@));
                            }
                            return Err(err);
                        }
                    },
                }
            }
            i += 1;
        }
        assert(langs@.take(langs@.len() as int) == langs@);
        if config.stt.provider == Provider::Local && !registry.is_valid_stt_model_id(config.stt.model_id.as_str()) {
            return Err(
                ConfigError::InvalidSttModel {
                    model_id: config.stt.model_id.clone(),
                    supported: registry.stt_model_ids(),
                },
            );
        }
        Ok(())
    }

    /// Get the model registry described by the registry document
    pub fn get_registry(doc: &RegistryDocument) -> (r: Result<ModelRegistry, ConfigError>)
        ensures
            match r {
                Ok(reg) => registry_result(*doc) == Ok::<RegistrySpec, RegistryErrorSpec>(reg@),
                Err(e) => registry_result(*doc) matches Err(x) && e@ == ConfigErrorSpec::Registry(x),
            },
    {
        match ModelRegistry::load(doc) {
            Ok(reg) => Ok(reg),
            Err(e) => Err(ConfigError::Registry(e)),
        }
    }
}

pub(crate) proof fn lemma_languages_ok(r: RegistrySpec, es: Seq<(String, TtsLanguageConfig)>, i: int)
    requires
        languages_result(r, es) is Ok,
        0 <= i < es.len(),
        es[i].1.enabled,
        es[i].1.provider == Provider::Local,
    ensures
        find_tts_model(r, es[i].0@, es[i].1.model_id@) is Some,
    decreases es.len(),
{
    if i < es.len() - 1 {
        assert(es.drop_last()[i] == es[i]);
        lemma_languages_ok(r, es.drop_last(), i);
    }
}

/// A configuration that passes validation refers only to what the registry
/// has: its default language has models, every enabled language with the
/// local provider names one of its own models, and with the local provider
/// for speech recognition the Whisper model exists.
pub proof fn law_validated_config_resolves(config: AppConfig, r: RegistrySpec, i: int)
    requires
        validation_result(config, r) is Ok,
        0 <= i < config.tts.languages@.len(),
    ensures
        lookup(r.tts, config.tts.default@) is Some,
        config.tts.languages@[i].1.enabled && config.tts.languages@[i].1.provider == Provider::Local
            ==> find_tts_model(r, config.tts.languages@[i].0@, config.tts.languages@[i].1.model_id@) is Some,
        config.stt.provider == Provider::Local ==> lookup(r.stt, config.stt.model_id@) is Some,
{
    if config.tts.languages@[i].1.enabled && config.tts.languages@[i].1.provider == Provider::Local {
        lemma_languages_ok(r, config.tts.languages@, i);
    }
}

/// The languages that validation checks: enabled, with the local provider,
/// in configuration order.
pub open spec fn checked_languages(es: Seq<(String, TtsLanguageConfig)>) -> Seq<(String, TtsLanguageConfig)>
    decreases es.len(),
{
    if es.len() == 0 {
        seq![]
    } else if es.last().1.enabled && es.last().1.provider == Provider::Local {
        checked_languages(es.drop_last()).push(es.last())
    } else {
        checked_languages(es.drop_last())
    }
}

proof fn lemma_languages_result_checked(r: RegistrySpec, es: Seq<(String, TtsLanguageConfig)>)
    ensures
        languages_result(r, es) == languages_result(r, checked_languages(es)),
    decreases es.len(),
{
    if es.len() > 0 {
        lemma_languages_result_checked(r, es.drop_last());
        let c = checked_languages(es.drop_last());
        if es.last().1.enabled && es.last().1.provider == Provider::Local {
            assert(c.push(es.last()).drop_last() == c);
            assert(c.push(es.last()).last() == es.last());
        }
    }
}

/// Languages that validation does not check (disabled ones, or ones spoken
/// by the cloud provider) never change its outcome: two configurations with
/// the same checked languages, default language and speech-recognition
/// settings validate alike.
pub proof fn law_unchecked_languages_do_not_matter(c1: AppConfig, c2: AppConfig, r: RegistrySpec)
    requires
        checked_languages(c1.tts.languages@) == checked_languages(c2.tts.languages@),
        c1.tts.default@ == c2.tts.default@,
        c1.stt.provider == c2.stt.provider,
        c1.stt.model_id@ == c2.stt.model_id@,
    ensures
        validation_result(c1, r) == validation_result(c2, r),
{
    lemma_languages_result_checked(r, c1.tts.languages@);
    lemma_languages_result_checked(r, c2.tts.languages@);
}

proof fn lemma_tts_section_nonempty(es: Seq<(String, Option<Vec<Option<RawModel>>>)>)
    requires
        tts_section_result(es) is Ok,
    ensures
        forall|i: int| 0 <= i < tts_section_result(es)->Ok_0.len()
            ==> (#[trigger] tts_section_result(es)->Ok_0[i]).1.len() > 0,
    decreases es.len(),
{
    if es.len() > 0 {
        lemma_tts_section_nonempty(es.drop_last());
    }
}

/// The registry keeps only languages that have models: every language it
/// lists has at least one.
pub proof fn law_registry_languages_have_models(doc: RegistryDocument)
    requires
        registry_result(doc) is Ok,
    ensures
        forall|i: int| 0 <= i < registry_result(doc)->Ok_0.tts.len()
            ==> (#[trigger] registry_result(doc)->Ok_0.tts[i]).1.len() > 0,
{
    match doc.tts {
        Some(es) => lemma_tts_section_nonempty(es@),
        None => {},
    }
}

/// The document names each language and each speech-recognition model once
/// (as the keys of a JSON object do).
pub open spec fn doc_keys_distinct(doc: RegistryDocument) -> bool {
    &&& (doc.tts matches Some(es) ==> keys_distinct(key_views(es@)))
    &&& (doc.stt_whisper matches Some(es) ==> keys_distinct(key_views(es@)))
}

proof fn lemma_tts_section_keys(es: Seq<(String, Option<Vec<Option<RawModel>>>)>)
    requires
        tts_section_result(es) is Ok,
    ensures
        ({
            let res = tts_section_result(es)->Ok_0;
            &&& forall|i: int| 0 <= i < res.len() ==> exists|k: int| 0 <= k < es.len() && #[trigger] es[k].0@ == (#[trigger] res[i]).0
                && (es[k].1 matches Some(ms) && tts_models_result(es[k].0@, ms@) == Ok::<Seq<TtsModelSpec>, RegistryErrorSpec>(res[i].1))
            &&& keys_distinct(key_views(es)) ==> keys_distinct(res)
        }),
    decreases es.len(),
{
    if es.len() > 0 {
        let prev = es.drop_last();
        lemma_tts_section_keys(prev);
        let acc = tts_section_result(prev)->Ok_0;
        let res = tts_section_result(es)->Ok_0;
        assert forall|i: int| 0 <= i < acc.len() implies exists|k: int| 0 <= k < es.len() && #[trigger] es[k].0@ == (#[trigger] acc[i]).0
                && (es[k].1 matches Some(ms) && tts_models_result(es[k].0@, ms@) == Ok::<Seq<TtsModelSpec>, RegistryErrorSpec>(acc[i].1)) by {
            let k = choose|k: int| 0 <= k < prev.len() && #[trigger] prev[k].0@ == acc[i].0
                && (prev[k].1 matches Some(ms) && tts_models_result(prev[k].0@, ms@) == Ok::<Seq<TtsModelSpec>, RegistryErrorSpec>(acc[i].1));
            assert(es[k] == prev[k]);
        }
        if res.len() > acc.len() {
            assert(res == acc.push((es.last().0@, res.last().1)));
            assert forall|i: int| 0 <= i < res.len() implies exists|k: int| 0 <= k < es.len() && #[trigger] es[k].0@ == (#[trigger] res[i]).0
                && (es[k].1 matches Some(ms) && tts_models_result(es[k].0@, ms@) == Ok::<Seq<TtsModelSpec>, RegistryErrorSpec>(res[i].1)) by {
                if i == acc.len() {
                    assert(es[es.len() - 1].0@ == res[i].0);
                    assert(es[es.len() - 1] == es.last());
                } else {
                    assert(res[i] == acc[i]);
                }
            }
            if keys_distinct(key_views(es)) {
                assert(keys_distinct(key_views(prev))) by {
                    assert forall|i: int, j: int| #![trigger key_views(prev)[i], key_views(prev)[j]] 0 <= i < j < key_views(prev).len()
                        implies key_views(prev)[i].0 != key_views(prev)[j].0 by {
                        assert(key_views(prev)[i] == key_views(es)[i]);
                        assert(key_views(prev)[j] == key_views(es)[j]);
                    }
                }
                assert forall|i: int, j: int| #![trigger res[i], res[j]] 0 <= i < j < res.len() implies res[i].0 != res[j].0 by {
                    if j == acc.len() {
                        let k = choose|k: int| 0 <= k < prev.len() && #[trigger] prev[k].0@ == acc[i].0
                            && (prev[k].1 matches Some(ms) && tts_models_result(prev[k].0@, ms@) == Ok::<Seq<TtsModelSpec>, RegistryErrorSpec>(acc[i].1));
                        assert(key_views(es)[k].0 == prev[k].0@);
                        assert(key_views(es)[es.len() - 1].0 == es.last().0@);
                        assert(res[i] == acc[i]);
                    } else {
                        assert(res[i] == acc[i]);
                        assert(res[j] == acc[j]);
                    }
                }
            }
        } else {
            assert(res == acc);
            if keys_distinct(key_views(es)) {
                assert(keys_distinct(key_views(prev))) by {
                    assert forall|i: int, j: int| #![trigger key_views(prev)[i], key_views(prev)[j]] 0 <= i < j < key_views(prev).len()
                        implies key_views(prev)[i].0 != key_views(prev)[j].0 by {
                        assert(key_views(prev)[i] == key_views(es)[i]);
                        assert(key_views(prev)[j] == key_views(es)[j]);
                    }
                }
            }
        }
    }
}

proof fn lemma_stt_section_keys(es: Seq<(String, Option<RawModel>)>)
    requires
        stt_section_result(es) is Ok,
    ensures
        ({
            let res = stt_section_result(es)->Ok_0;
            &&& forall|i: int| 0 <= i < res.len() ==> exists|k: int| 0 <= k < es.len() && #[trigger] es[k].0@ == (#[trigger] res[i]).0
                && (es[k].1 matches Some(m) && stt_model_result(es[k].0@, m) == Ok::<SttModelSpec, RegistryErrorSpec>(res[i].1))
            &&& keys_distinct(key_views(es)) ==> keys_distinct(res)
        }),
    decreases es.len(),
{
    if es.len() > 0 {
        let prev = es.drop_last();
        lemma_stt_section_keys(prev);
        let acc = stt_section_result(prev)->Ok_0;
        let res = stt_section_result(es)->Ok_0;
        assert forall|i: int| 0 <= i < acc.len() implies exists|k: int| 0 <= k < es.len() && #[trigger] es[k].0@ == (#[trigger] acc[i]).0
                && (es[k].1 matches Some(m) && stt_model_result(es[k].0@, m) == Ok::<SttModelSpec, RegistryErrorSpec>(acc[i].1)) by {
            let k = choose|k: int| 0 <= k < prev.len() && #[trigger] prev[k].0@ == acc[i].0
                && (prev[k].1 matches Some(m) && stt_model_result(prev[k].0@, m) == Ok::<SttModelSpec, RegistryErrorSpec>(acc[i].1));
            assert(es[k] == prev[k]);
        }
        if keys_distinct(key_views(es)) {
            assert(keys_distinct(key_views(prev))) by {
                assert forall|i: int, j: int| #![trigger key_views(prev)[i], key_views(prev)[j]] 0 <= i < j < key_views(prev).len()
                    implies key_views(prev)[i].0 != key_views(prev)[j].0 by {
                    assert(key_views(prev)[i] == key_views(es)[i]);
                    assert(key_views(prev)[j] == key_views(es)[j]);
                }
            }
        }
        if res.len() > acc.len() {
            assert(res == acc.push((es.last().0@, res.last().1)));
            assert forall|i: int| 0 <= i < res.len() implies exists|k: int| 0 <= k < es.len() && #[trigger] es[k].0@ == (#[trigger] res[i]).0
                && (es[k].1 matches Some(m) && stt_model_result(es[k].0@, m) == Ok::<SttModelSpec, RegistryErrorSpec>(res[i].1)) by {
                if i == acc.len() {
                    assert(es[es.len() - 1].0@ == res[i].0);
                    assert(es[es.len() - 1] == es.last());
                } else {
                    assert(res[i] == acc[i]);
                }
            }
            if keys_distinct(key_views(es)) {
                assert forall|i: int, j: int| #![trigger res[i], res[j]] 0 <= i < j < res.len() implies res[i].0 != res[j].0 by {
                    if j == acc.len() {
                        let k = choose|k: int| 0 <= k < prev.len() && #[trigger] prev[k].0@ == acc[i].0
                && (prev[k].1 matches Some(m) && stt_model_result(prev[k].0@, m) == Ok::<SttModelSpec, RegistryErrorSpec>(acc[i].1));
                        assert(key_views(es)[k].0 == prev[k].0@);
                        assert(key_views(es)[es.len() - 1].0 == es.last().0@);
                        assert(res[i] == acc[i]);
                    } else {
                        assert(res[i] == acc[i]);
                        assert(res[j] == acc[j]);
                    }
                }
            }
        } else {
            assert(res == acc);
        }
    }
}

/// A registry read from a document that names each language and each
/// speech-recognition model once lists each of them once.
pub proof fn law_registry_keys_distinct(doc: RegistryDocument)
    requires
        registry_result(doc) is Ok,
        doc_keys_distinct(doc),
    ensures
        keys_distinct(registry_result(doc)->Ok_0.tts),
        keys_distinct(registry_result(doc)->Ok_0.stt),
{
    match doc.tts {
        Some(es) => lemma_tts_section_keys(es@),
        None => {},
    }
    match doc.stt_whisper {
        Some(es) => lemma_stt_section_keys(es@),
        None => {},
    }
}

/// With each language listed once, a TTS model ID is valid exactly when some
/// language finds a model with that ID.
pub proof fn law_valid_tts_id_is_found(r: RegistrySpec, id: Seq<char>)
    requires
        keys_distinct(r.tts),
    ensures
        has_tts_model_id(r, id) <==> exists|lang: Seq<char>| (#[trigger] find_tts_model(r, lang, id)) is Some,
{
    if has_tts_model_id(r, id) {
        let (i, j) = choose|i: int, j: int|
            0 <= i < r.tts.len() && 0 <= j < r.tts[i].1.len() && #[trigger] r.tts[i].1[j].id == id;
        lemma_distinct_lookup(r.tts, i);
        let ms = r.tts[i].1;
        assert(models_by_id(ms)[j].0 == id);
        lemma_present_lookup(models_by_id(ms), j);
        assert(find_tts_model(r, r.tts[i].0, id) is Some);
    }
    if exists|lang: Seq<char>| (#[trigger] find_tts_model(r, lang, id)) is Some {
        let lang = choose|lang: Seq<char>| (#[trigger] find_tts_model(r, lang, id)) is Some;
        lemma_first_key_index_range(r.tts, lang);
        let i = first_key_index(r.tts, lang);
        let ms = r.tts[i].1;
        lemma_first_key_index_range(models_by_id(ms), id);
        let j = first_key_index(models_by_id(ms), id);
        assert(r.tts[i].1[j].id == id);
    }
}

/// Every entry of a registry comes from the document entry under the same
/// key: a language's models are what `tts_models_result` reads from its
/// array (so each model's required files are the strings of its array, in
/// order), and a speech-recognition model is what `stt_model_result` reads
/// from its object (so a missing size or language code reads "unknown").
pub proof fn law_registry_entries_from_document(doc: RegistryDocument)
    requires
        registry_result(doc) is Ok,
    ensures
        forall|i: int| 0 <= i < registry_result(doc)->Ok_0.tts.len() ==> (doc.tts matches Some(es)
            && exists|k: int| 0 <= k < es@.len() && #[trigger] es@[k].0@ == (#[trigger] registry_result(doc)->Ok_0.tts[i]).0
                && (es@[k].1 matches Some(ms)
                && tts_models_result(es@[k].0@, ms@) == Ok::<Seq<TtsModelSpec>, RegistryErrorSpec>(registry_result(doc)->Ok_0.tts[i].1))),
        forall|i: int| 0 <= i < registry_result(doc)->Ok_0.stt.len() ==> (doc.stt_whisper matches Some(es)
            && exists|k: int| 0 <= k < es@.len() && #[trigger] es@[k].0@ == (#[trigger] registry_result(doc)->Ok_0.stt[i]).0
                && (es@[k].1 matches Some(m)
                && stt_model_result(es@[k].0@, m) == Ok::<SttModelSpec, RegistryErrorSpec>(registry_result(doc)->Ok_0.stt[i].1))),
{
    match doc.tts {
        Some(es) => lemma_tts_section_keys(es@),
        None => {},
    }
    match doc.stt_whisper {
        Some(es) => lemma_stt_section_keys(es@),
        None => {},
    }
}

} // verus!
