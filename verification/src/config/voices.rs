//! Curated Qwen-TTS voice catalogue.

use vstd::prelude::*;
use crate::config::models::{AppConfig, Provider, TtsLanguageConfig};
use crate::utils::chars::chars_of;
use crate::utils::text::{trim, trim_str};
use vstd::string::StrSliceExecFns;

verus! {

/// A selectable DashScope TTS voice
#[derive(Debug, Clone)]
pub struct Voice {
    pub id: String,
    pub gender: String,
    pub description: String,
}

/// The code of `c` with ASCII capitals mapped to small letters.
pub open spec fn ascii_fold(c: char) -> u32 {
    if 'A' <= c <= 'Z' {
        (c as u32 + 32) as u32
    } else {
        c as u32
    }
}

/// `a` and `b` match ignoring ASCII case (what `str::eq_ignore_ascii_case` checks).
pub open spec fn eq_ignore_ascii_case(a: Seq<char>, b: Seq<char>) -> bool {
    &&& a.len() == b.len()
    &&& forall|i: int| 0 <= i < a.len() ==> #[trigger] ascii_fold(a[i]) == ascii_fold(b[i])
}

fn ascii_fold_exec(c: char) -> (r: u32)
    ensures
        r == ascii_fold(c),
{
    if 'A' <= c && c <= 'Z' {
        c as u32 + 32
    } else {
        c as u32
    }
}

/// Whether two strings match ignoring ASCII case.
pub fn str_eq_ignore_ascii_case(a: &str, b: &str) -> (r: bool)
    ensures
        r == eq_ignore_ascii_case(a@, b@),
{
    let x = chars_of(a);
    let y = chars_of(b);
    if x.len() != y.len() {
        return false;
    }
    let mut i: usize = 0;
    while i < x.len()
        invariant
            i <= x@.len(),
            x@ == a@,
            y@ == b@,
            x@.len() == y@.len(),
            forall|k: int| 0 <= k < i ==> #[trigger] ascii_fold(x@[k]) == ascii_fold(y@[k]),
        decreases x.len() - i,
    {
        if ascii_fold_exec(x[i]) != ascii_fold_exec(y[i]) {
            return false;
        }
        i += 1;
    }
    true
}

/// Whether `id` matches a voice of the catalogue (ASCII case-insensitive).
pub fn is_known_voice(voices: &[Voice], id: &str) -> (r: bool)
    ensures
        r == exists|i: int| 0 <= i < voices@.len() && eq_ignore_ascii_case(#[trigger] voices@[i].id@, id@),
{
    let mut i: usize = 0;
    while i < voices.len()
        invariant
            i <= voices@.len(),
            forall|k: int| 0 <= k < i ==> !eq_ignore_ascii_case(#[trigger] voices@[k].id@, id@),
        decreases voices.len() - i,
    {
        if str_eq_ignore_ascii_case(voices[i].id.as_str(), id) {
            return true;
        }
        i += 1;
    }
    false
}

/// Whether `id` names a voice of the catalogue (ASCII case-insensitive).
pub open spec fn known_voice(voices: Seq<Voice>, id: Seq<char>) -> bool {
    exists|i: int| 0 <= i < voices.len() && eq_ignore_ascii_case(#[trigger] voices[i].id@, id)
}

/// Whether a language's voice deserves a warning: a cloud language whose
/// voice is set but not in the catalogue (it is still passed on verbatim).
pub open spec fn voice_warned(voices: Seq<Voice>, cfg: TtsLanguageConfig) -> bool {
    cfg.provider == Provider::Dashscope && trim(cfg.voice@).len() > 0 && !known_voice(voices, cfg.voice@)
}

/// The (language, voice) pairs that deserve a warning, in configuration order.
pub open spec fn unknown_voice_entries(voices: Seq<Voice>, es: Seq<(String, TtsLanguageConfig)>) -> Seq<(Seq<char>, Seq<char>)>
    decreases es.len(),
{
    if es.len() == 0 {
        seq![]
    } else {
        let prev = unknown_voice_entries(voices, es.drop_last());
        if voice_warned(voices, es.last().1) {
            prev.push((es.last().0@, es.last().1.voice@))
        } else {
            prev
        }
    }
}

/// The views of (language, voice) pairs.
pub open spec fn pair_views(v: Seq<(String, String)>) -> Seq<(Seq<char>, Seq<char>)> {
    v.map_values(|p: (String, String)| (p.0@, p.1@))
}

/// The configured cloud voices that are not in the catalogue, with their
/// languages, in configuration order.
pub fn unknown_voices(config: &AppConfig, voices: &[Voice]) -> (r: Vec<(String, String)>)
    ensures
        pair_views(r@) == unknown_voice_entries(voices@, config.tts.languages@),
{
    let es = &config.tts.languages;
    let mut out: Vec<(String, String)> = Vec::new();
    let mut i: usize = 0;
    while i < es.len()
        invariant
            i <= es@.len(),
            es@ == config.tts.languages@,
            pair_views(out@) == unknown_voice_entries(voices@, es@.take(i as int)),
        decreases es.len() - i,
    {
        let ghost prev = out@;
        let cfg = &es[i].1;
        assert(es@.take(i + 1).drop_last() == es@.take(i as int));
        assert(es@.take(i + 1).last() == es@[i as int]);
        let warned = cfg.provider.is_dashscope() && trim_str(cfg.voice.as_str()).unicode_len() > 0
            && !is_known_voice(voices, cfg.voice.as_str());
        if warned {
            out.push((es[i].0.clone(), cfg.voice.clone()));
            assert(pair_views(out@) == pair_views(prev).push((es@[i as int].0@, cfg.voice@)));
        }
        i += 1;
    }
    assert(es@.take(es@.len() as int) == es@);
    out
}

} // verus!
