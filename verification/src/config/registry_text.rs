//! Reading the model registry from the text of `models.json`.
//!
//! The document is walked through JSON pointers: `/tts/<lang>/<i>/<field>`
//! for the speech models of each language, `/stt_whisper/<id>/<field>` for
//! the speech-recognition models.

use vstd::prelude::*;
use vstd::string::StringExecFns;
use crate::config::keyed::{key_views, keys_distinct};
use crate::config::validator::{
    law_registry_keys_distinct, doc_keys_distinct, opt_view, registry_result, strings_view, ModelRegistry, RawModel,
    RegistryDocument, RegistryError, RegistryErrorSpec, RegistrySpec,
};
use crate::utils::chars::{chars_of, push_char};
use crate::utils::json::{
    json_array_len, json_array_len_at, json_is_object, json_is_object_at, json_lookup, json_object_keys,
    json_object_keys_at, json_string_lookup,
};
use crate::utils::logging::{digit, digit_char};

verus! {

/// A key as a JSON pointer token: `~` written `~0`, `/` written `~1`.
pub open spec fn pointer_token(k: Seq<char>) -> Seq<char>
    decreases k.len(),
{
    if k.len() == 0 {
        seq![]
    } else {
        let c = k.last();
        pointer_token(k.drop_last()) + if c == '~' {
            seq!['~', '0']
        } else if c == '/' {
            seq!['~', '1']
        } else {
            seq![c]
        }
    }
}

/// `n` in decimal digits.
pub open spec fn decimal(n: nat) -> Seq<char>
    decreases n,
{
    if n < 10 {
        seq![digit(n as int)]
    } else {
        decimal(n / 10).push(digit((n % 10) as int))
    }
}

/// The string at a pointer, if a string is there.
pub open spec fn string_at(text: Seq<char>, p: Seq<char>) -> Option<Seq<char>> {
    match json_string_lookup(text, p) {
        Some(Some(s)) => Some(s),
        _ => None,
    }
}

/// The pointer to item `k` of the array at `p`.
pub open spec fn item_pointer(p: Seq<char>, k: nat) -> Seq<char> {
    p + seq!['/'] + decimal(k)
}

/// `rf` is the `required_files` entry read at `p`: `None` when no array is
/// there, otherwise one entry per item (the string, or `None`).
pub open spec fn files_match(text: Seq<char>, p: Seq<char>, rf: Option<Vec<Option<String>>>) -> bool {
    match json_array_len_at(text, p) {
        None => rf is None,
        Some(n) => rf matches Some(v) && v@.len() == n && forall|k: int|
            0 <= k < n ==> opt_view(#[trigger] v@[k]) == string_at(text, item_pointer(p, k as nat)),
    }
}

/// `m` is the model entry read at `p`: `None` when no object is there,
/// otherwise each field's string (or `None`).
pub open spec fn model_matches(text: Seq<char>, p: Seq<char>, m: Option<RawModel>) -> bool {
    if !json_is_object_at(text, p) {
        m is None
    } else {
        m matches Some(rm) && opt_view(rm.id) == string_at(text, p + "/id"@)
            && opt_view(rm.download_url) == string_at(text, p + "/download_url"@)
            && files_match(text, p + "/required_files"@, rm.required_files)
            && opt_view(rm.json_url) == string_at(text, p + "/json_url"@)
            && opt_view(rm.size) == string_at(text, p + "/size"@)
            && opt_view(rm.language_code) == string_at(text, p + "/language_code"@)
    }
}

/// `e` is the list of models read at `p`: `None` when no array is there,
/// otherwise one entry per item.
pub open spec fn models_match(text: Seq<char>, p: Seq<char>, e: Option<Vec<Option<RawModel>>>) -> bool {
    match json_array_len_at(text, p) {
        None => e is None,
        Some(n) => e matches Some(v) && v@.len() == n && forall|j: int|
            0 <= j < n ==> model_matches(text, item_pointer(p, j as nat), #[trigger] v@[j]),
    }
}

/// `d` is the registry document that the JSON text holds: the `tts` object
/// (language to an array of models) and the `stt_whisper` object (model ID
/// to a model), each in the order of the object's keys.
pub open spec fn document_matches(text: Seq<char>, d: RegistryDocument) -> bool {
    &&& match json_object_keys_at(text, "/tts"@) {
        None => d.tts is None,
        Some(keys) => d.tts matches Some(es) && es@.len() == keys.len() && forall|i: int|
            0 <= i < keys.len() ==> (#[trigger] es@[i]).0@ == keys[i]
                && models_match(text, "/tts/"@ + pointer_token(keys[i]), es@[i].1),
    }
    &&& match json_object_keys_at(text, "/stt_whisper"@) {
        None => d.stt_whisper is None,
        Some(keys) => d.stt_whisper matches Some(es) && es@.len() == keys.len() && forall|i: int|
            0 <= i < keys.len() ==> (#[trigger] es@[i]).0@ == keys[i]
                && model_matches(text, "/stt_whisper/"@ + pointer_token(keys[i]), es@[i].1),
    }
}

/// The text is JSON.
pub open spec fn is_json(text: Seq<char>) -> bool {
    json_string_lookup(text, ""@) is Some
}

fn pointer_token_exec(k: &str) -> (r: String)
    ensures
        r@ == pointer_token(k@),
{
    let cs = chars_of(k);
    let mut out = String::new();
    let mut i: usize = 0;
    while i < cs.len()
        invariant
            i <= cs@.len(),
            cs@ == k@,
            out@ == pointer_token(cs@.take(i as int)),
        decreases cs.len() - i,
    {
        let c = cs[i];
        assert(cs@.take(i + 1).drop_last() == cs@.take(i as int));
        assert(cs@.take(i + 1).last() == c);
        if c == '~' {
            push_char(&mut out, '~');
            push_char(&mut out, '0');
        } else if c == '/' {
            push_char(&mut out, '~');
            push_char(&mut out, '1');
        } else {
            push_char(&mut out, c);
        }
        i += 1;
    }
    assert(cs@.take(cs@.len() as int) == cs@);
    out
}

fn decimal_exec(n: usize) -> (r: String)
    ensures
        r@ == decimal(n as nat),
    decreases n,
{
    if n < 10 {
        let mut s = String::new();
        push_char(&mut s, digit_char(n as u32));
        s
    } else {
        let mut s = decimal_exec(n / 10);
        push_char(&mut s, digit_char((n % 10) as u32));
        s
    }
}

fn item_pointer_exec(p: &String, k: usize) -> (r: String)
    ensures
        r@ == item_pointer(p@, k as nat),
{
    let mut q = p.clone();
    push_char(&mut q, '/');
    let d = decimal_exec(k);
    q.append(d.as_str());
    q
}

fn string_at_exec(text: &str, p: &str) -> (r: Option<String>)
    ensures
        opt_view(r) == string_at(text@, p@),
{
    match json_lookup(text, p) {
        Some(Some(s)) => Some(s),
        _ => None,
    }
}

fn field_at(text: &str, p: &String, field: &str) -> (r: Option<String>)
    ensures
        opt_view(r) == string_at(text@, p@ + field@),
{
    let mut q = p.clone();
    q.append(field);
    string_at_exec(text, q.as_str())
}

fn files_at(text: &str, p: &String) -> (r: Option<Vec<Option<String>>>)
    ensures
        files_match(text@, p@, r),
{
    let n = match json_array_len(text, p.as_str()) {
        None => return None,
        Some(n) => n,
    };
    let mut v: Vec<Option<String>> = Vec::new();
    let mut k: usize = 0;
    while k < n
        invariant
            k <= n,
            json_array_len_at(text@, p@) == Some(n as nat),
            v@.len() == k,
            forall|j: int| 0 <= j < k ==> opt_view(#[trigger] v@[j]) == string_at(text@, item_pointer(p@, j as nat)),
        decreases n - k,
    {
        let q = item_pointer_exec(p, k);
        let s = string_at_exec(text, q.as_str());
        v.push(s);
        k += 1;
    }
    Some(v)
}

fn model_at(text: &str, p: &String) -> (r: Option<RawModel>)
    ensures
        model_matches(text@, p@, r),
{
    if !json_is_object(text, p.as_str()) {
        return None;
    }
    let mut fp = p.clone();
    fp.append("/required_files");
    let m = RawModel {
        id: field_at(text, p, "/id"),
        download_url: field_at(text, p, "/download_url"),
        required_files: files_at(text, &fp),
        json_url: field_at(text, p, "/json_url"),
        size: field_at(text, p, "/size"),
        language_code: field_at(text, p, "/language_code"),
    };
    Some(m)
}

fn models_at(text: &str, p: &String) -> (r: Option<Vec<Option<RawModel>>>)
    ensures
        models_match(text@, p@, r),
{
    let n = match json_array_len(text, p.as_str()) {
        None => return None,
        Some(n) => n,
    };
    let mut v: Vec<Option<RawModel>> = Vec::new();
    let mut j: usize = 0;
    while j < n
        invariant
            j <= n,
            json_array_len_at(text@, p@) == Some(n as nat),
            v@.len() == j,
            forall|i: int| 0 <= i < j ==> model_matches(text@, item_pointer(p@, i as nat), #[trigger] v@[i]),
        decreases n - j,
    {
        let q = item_pointer_exec(p, j);
        let m = model_at(text, &q);
        v.push(m);
        j += 1;
    }
    Some(v)
}

fn section_pointer(prefix: &str, key: &str) -> (r: String)
    ensures
        r@ == prefix@ + pointer_token(key@),
{
    let mut q = prefix.to_owned();
    let t = pointer_token_exec(key);
    q.append(t.as_str());
    q
}

/// The registry document that the text of `models.json` holds; `None` when
/// the text is not JSON.
pub fn registry_document(text: &str) -> (r: Option<RegistryDocument>)
    ensures
        match r {
            Some(d) => is_json(text@) && document_matches(text@, d)
                && (d.tts matches Some(es) ==> keys_distinct(key_views(es@)))
                && (d.stt_whisper matches Some(es) ==> keys_distinct(key_views(es@))),
            None => !is_json(text@),
        },
{
    if json_lookup(text, "").is_none() {
        return None;
    }
    let tts = match json_object_keys(text, "/tts") {
        None => None,
        Some(keys) => {
            let mut es: Vec<(String, Option<Vec<Option<RawModel>>>)> = Vec::new();
            let mut i: usize = 0;
            while i < keys.len()
                invariant
                    i <= keys@.len(),
                    json_object_keys_at(text@, "/tts"@) == Some(strings_view(keys@)),
                    es@.len() == i,
                    forall|k: int| 0 <= k < i ==> (#[trigger] es@[k]).0@ == keys@[k]@
                        && models_match(text@, "/tts/"@ + pointer_token(keys@[k]@), es@[k].1),
                decreases keys.len() - i,
            {
                let p = section_pointer("/tts/", keys[i].as_str());
                let ms = models_at(text, &p);
                es.push((keys[i].clone(), ms));
                i += 1;
            }
            proof {
                assert forall|a: int, b: int| #![trigger key_views(es@)[a], key_views(es@)[b]]
                    0 <= a < b < key_views(es@).len() implies key_views(es@)[a].0 != key_views(es@)[b].0 by {
                    assert(strings_view(keys@)[a] == keys@[a]@);
                    assert(strings_view(keys@)[b] == keys@[b]@);
                }
            }
            Some(es)
        },
    };
    let stt = match json_object_keys(text, "/stt_whisper") {
        None => None,
        Some(keys) => {
            let mut es: Vec<(String, Option<RawModel>)> = Vec::new();
            let mut i: usize = 0;
            while i < keys.len()
                invariant
                    i <= keys@.len(),
                    json_object_keys_at(text@, "/stt_whisper"@) == Some(strings_view(keys@)),
                    es@.len() == i,
                    forall|k: int| 0 <= k < i ==> (#[trigger] es@[k]).0@ == keys@[k]@
                        && model_matches(text@, "/stt_whisper/"@ + pointer_token(keys@[k]@), es@[k].1),
                decreases keys.len() - i,
            {
                let p = section_pointer("/stt_whisper/", keys[i].as_str());
                let m = model_at(text, &p);
                es.push((keys[i].clone(), m));
                i += 1;
            }
            proof {
                assert forall|a: int, b: int| #![trigger key_views(es@)[a], key_views(es@)[b]]
                    0 <= a < b < key_views(es@).len() implies key_views(es@)[a].0 != key_views(es@)[b].0 by {
                    assert(strings_view(keys@)[a] == keys@[a]@);
                    assert(strings_view(keys@)[b] == keys@[b]@);
                }
            }
            Some(es)
        },
    };
    Some(RegistryDocument { tts, stt_whisper: stt })
}

/// Why the registry text cannot be read.
#[derive(Debug, Clone)]
pub enum RegistryLoadError {
    /// The text is not JSON.
    NotJson,
    /// A model entry lacks a required field.
    Missing(RegistryError),
}

impl ModelRegistry {
    /// Load the model registry from the text of `models.json`. The registry
    /// lists each language and each speech-recognition model once.
    pub fn load_text(text: &str) -> (r: Result<ModelRegistry, RegistryLoadError>)
        ensures
            match r {
                Ok(reg) => is_json(text@) && (exists|d: RegistryDocument| document_matches(text@, d)
                    && registry_result(d) == Ok::<RegistrySpec, RegistryErrorSpec>(reg@))
                    && keys_distinct(reg@.tts) && keys_distinct(reg@.stt),
                Err(RegistryLoadError::NotJson) => !is_json(text@),
                Err(RegistryLoadError::Missing(e)) => is_json(text@) && exists|d: RegistryDocument|
                    document_matches(text@, d) && registry_result(d) == Err::<RegistrySpec, RegistryErrorSpec>(e@),
            },
    {
        let doc = match registry_document(text) {
            None => return Err(RegistryLoadError::NotJson),
            Some(d) => d,
        };
        match ModelRegistry::load(&doc) {
            Ok(reg) => {
                proof {
                    assert(doc_keys_distinct(doc));
                    law_registry_keys_distinct(doc);
                }
                Ok(reg)
            },
            Err(e) => Err(RegistryLoadError::Missing(e)),
        }
    }
}

} // verus!
