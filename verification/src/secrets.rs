//! API key handling: redaction, key locations, and the order in which the
//! key sources are tried.
//!
//! Resolution order for `KeySource::Auto`:
//! 1. systemd `$CREDENTIALS_DIRECTORY` (`LoadCredential=`)
//! 2. Freedesktop Secret Service (GNOME Keyring / KWallet)
//! 3. A `0600` file in `~/.config/ttsandsttp/`
//! 4. The environment variable (development only)

use vstd::prelude::*;
use vstd::utf8::{decode_utf8, encode_utf8, is_char_boundary};
use vstd::string::{StringExecFns, StringSliceAdditionalSpecFns};
use crate::config::models::{ApiConfig, ApiRegion, KeySource, region_slug};
use crate::utils::path::{join, path_join};
use crate::utils::text::{trim, trim_str};

verus! {

broadcast use vstd::utf8::encode_utf8_decode_utf8;

/// A key as it may appear in logs: `****` when its UTF-8 form has at most
/// 8 bytes, otherwise its first 4 bytes, `…`, and its last 4 bytes.
pub open spec fn redacted(s: Seq<char>) -> Seq<char> {
    let b = encode_utf8(s);
    if b.len() <= 8 {
        "****"@
    } else {
        decode_utf8(b.subrange(0, 4)) + seq!['…'] + decode_utf8(b.subrange(b.len() - 4, b.len() as int))
    }
}

/// Resolved secret storage helpers
pub struct Secrets;

impl Secrets {
    /// Redact a secret for safe inclusion in logs/errors.
    ///
    /// For keys longer than 8 bytes, bytes 4 and `len - 4` must fall on
    /// character boundaries.
    pub fn redact(key: &str) -> (r: String)
        requires
            key.spec_bytes().len() > 8 ==> is_char_boundary(key.spec_bytes(), 4)
                && is_char_boundary(key.spec_bytes(), key.spec_bytes().len() - 4),
        ensures
            r@ == redacted(key@),
    {
        let n = key.as_bytes().len();
        if n <= 8 {
            let r = "****".to_owned();
            return r;
        }
        let (head, _) = key.split_at(4);
        let (_, tail) = key.split_at(n - 4);
        let mut r = head.to_owned();
        r.append("…");
        r.append(tail);
        proof {
            reveal_strlit("…");
            let b = key.spec_bytes();
            assert(head.spec_bytes() == b.subrange(0, 4));
            assert(decode_utf8(encode_utf8(head@)) == head@);
            assert(decode_utf8(encode_utf8(tail@)) == tail@);
        }
        r
    }
}

/// The keyring account of a region: `dashscope/<slug>`.
pub open spec fn keyring_account_of(region: ApiRegion) -> Seq<char> {
    "dashscope/"@ + region_slug(region)
}

/// The keyring account that holds the key of the configured region.
pub fn keyring_account(api: &ApiConfig) -> (r: String)
    ensures
        r@ == keyring_account_of(api.region),
{
    let mut r = "dashscope/".to_owned();
    r.append(api.region.slug());
    r
}

/// The credential names tried in `$CREDENTIALS_DIRECTORY`, in order:
/// `dashscope-<slug>`, then `dashscope`.
pub fn credential_names(api: &ApiConfig) -> (r: Vec<String>)
    ensures
        r@.len() == 2,
        r@[0]@ == "dashscope-"@ + region_slug(api.region),
        r@[1]@ == "dashscope"@,
{
    let mut first = "dashscope-".to_owned();
    first.append(api.region.slug());
    let mut v: Vec<String> = Vec::new();
    v.push(first);
    v.push("dashscope".to_owned());
    v
}

/// The path with a leading `~/` replaced by the home directory, when known.
pub open spec fn expanded(path: Seq<char>, home: Option<Seq<char>>) -> Seq<char> {
    if path.len() >= 2 && path[0] == '~' && path[1] == '/' && home is Some {
        path_join(home->0, path.skip(2))
    } else {
        path
    }
}

/// Replaces a leading `~/` with the home directory, when one is known.
pub fn expand_tilde(path: &str, home: Option<&str>) -> (r: String)
    ensures
        r@ == expanded(path@, match home { Some(h) => Some(h@), None => None }),
{
    let cs = crate::utils::chars::chars_of(path);
    if cs.len() >= 2 && cs[0] == '~' && cs[1] == '/' {
        if let Some(h) = home {
            let rest = crate::utils::chars::string_from_range(cs.as_slice(), 2, cs.len());
            proof {
                assert(cs@.subrange(2, cs@.len() as int) == path@.skip(2));
            }
            return join(h, rest.as_str());
        }
    }
    path.to_owned()
}

/// The key file: the configured one (with `~/` expanded), or else
/// `<config dir>/ttsandsttp/dashscope.<slug>.key`, with `.config` standing in
/// for an unknown configuration directory.
pub open spec fn key_file_of(api: ApiConfig, config_dir: Option<Seq<char>>, home: Option<Seq<char>>) -> Seq<char> {
    if api.key_file@.len() != 0 {
        expanded(api.key_file@, home)
    } else {
        let dir = match config_dir {
            Some(d) => d,
            None => ".config"@,
        };
        path_join(path_join(dir, "ttsandsttp"@), "dashscope."@ + region_slug(api.region) + ".key"@)
    }
}

/// The path of the key file, given the user's configuration and home
/// directories as far as they are known.
pub fn key_file_path(api: &ApiConfig, config_dir: Option<&str>, home: Option<&str>) -> (r: String)
    ensures
        r@ == key_file_of(
            *api,
            match config_dir { Some(d) => Some(d@), None => None },
            match home { Some(h) => Some(h@), None => None },
        ),
{
    if !api.key_file.as_str().is_empty() {
        return expand_tilde(api.key_file.as_str(), home);
    }
    let dir: String = match config_dir {
        Some(d) => d.to_owned(),
        None => ".config".to_owned(),
    };
    let app_dir = join(dir.as_str(), "ttsandsttp");
    let mut name = "dashscope.".to_owned();
    name.append(api.region.slug());
    name.append(".key");
    join(app_dir.as_str(), name.as_str())
}

/// A key file whose mode grants any access to group or others is refused.
pub fn permissions_too_open(mode: u32) -> (r: bool)
    ensures
        r == (mode & 0o077 != 0),
{
    mode & 0o077 != 0
}

/// A stored key, trimmed; `None` when nothing but white space is left.
pub fn clean_secret(raw: &str) -> (r: Option<String>)
    ensures
        match r {
            Some(k) => k@ == trim(raw@) && k@.len() > 0,
            None => trim(raw@).len() == 0,
        },
{
    let t = trim_str(raw);
    if t.as_str().is_empty() {
        None
    } else {
        Some(t)
    }
}

/// One place a key is looked up.
#[derive(Debug, Clone, Copy, PartialEq, Eq, Structural)]
pub enum KeyLookup {
    Credential,
    Keyring,
    File,
    Env,
}

/// What a lookup found.
#[derive(Debug, Clone, Copy, PartialEq, Eq, Structural)]
pub enum LookupOutcome {
    /// A key was found.
    Found,
    /// No key is stored there.
    Missing,
    /// The lookup itself failed.
    Failed,
}

/// Why resolution stops without a key.
#[derive(Debug, Clone, Copy, PartialEq, Eq, Structural)]
pub enum ResolveFailure {
    /// The last lookup failed; its error is the answer.
    LookupFailed,
    /// No source held a key (for the given source setting).
    NotFound(KeySource),
}

/// The next move of key resolution.
#[derive(Debug, Clone, Copy, PartialEq, Eq, Structural)]
pub enum ResolveStep {
    /// Use the key just found.
    Done,
    /// Try this lookup next.
    Next(KeyLookup),
    /// Stop without a key.
    Fail(ResolveFailure),
}

/// The first lookup for a source setting.
pub open spec fn first_lookup_of(source: KeySource) -> KeyLookup {
    match source {
        KeySource::Auto => KeyLookup::Credential,
        KeySource::Credential => KeyLookup::Credential,
        KeySource::Keyring => KeyLookup::Keyring,
        KeySource::File => KeyLookup::File,
        KeySource::Env => KeyLookup::Env,
    }
}

/// What follows a lookup. With `Auto` the lookups run credential, keyring,
/// file, environment; a failing keyring is passed over, other failures stop
/// resolution. With a single source, a missing key is an error.
pub open spec fn next_step(source: KeySource, lookup: KeyLookup, outcome: LookupOutcome) -> ResolveStep {
    match outcome {
        LookupOutcome::Found => ResolveStep::Done,
        LookupOutcome::Failed => if source == KeySource::Auto && lookup == KeyLookup::Keyring {
            ResolveStep::Next(KeyLookup::File)
        } else {
            ResolveStep::Fail(ResolveFailure::LookupFailed)
        },
        LookupOutcome::Missing => if source == KeySource::Auto {
            match lookup {
                KeyLookup::Credential => ResolveStep::Next(KeyLookup::Keyring),
                KeyLookup::Keyring => ResolveStep::Next(KeyLookup::File),
                KeyLookup::File => ResolveStep::Next(KeyLookup::Env),
                KeyLookup::Env => ResolveStep::Fail(ResolveFailure::NotFound(KeySource::Auto)),
            }
        } else {
            ResolveStep::Fail(ResolveFailure::NotFound(source))
        },
    }
}

/// The first lookup for the configured source.
pub fn first_lookup(source: KeySource) -> (r: KeyLookup)
    ensures
        r == first_lookup_of(source),
{
    match source {
        KeySource::Auto => KeyLookup::Credential,
        KeySource::Credential => KeyLookup::Credential,
        KeySource::Keyring => KeyLookup::Keyring,
        KeySource::File => KeyLookup::File,
        KeySource::Env => KeyLookup::Env,
    }
}

/// The move after `lookup` gave `outcome`.
pub fn after_lookup(source: KeySource, lookup: KeyLookup, outcome: LookupOutcome) -> (r: ResolveStep)
    ensures
        r == next_step(source, lookup, outcome),
{
    match outcome {
        LookupOutcome::Found => ResolveStep::Done,
        LookupOutcome::Failed => {
            if source == KeySource::Auto && lookup == KeyLookup::Keyring {
                ResolveStep::Next(KeyLookup::File)
            } else {
                ResolveStep::Fail(ResolveFailure::LookupFailed)
            }
        },
        LookupOutcome::Missing => {
            if source == KeySource::Auto {
                match lookup {
                    KeyLookup::Credential => ResolveStep::Next(KeyLookup::Keyring),
                    KeyLookup::Keyring => ResolveStep::Next(KeyLookup::File),
                    KeyLookup::File => ResolveStep::Next(KeyLookup::Env),
                    KeyLookup::Env => ResolveStep::Fail(ResolveFailure::NotFound(KeySource::Auto)),
                }
            } else {
                ResolveStep::Fail(ResolveFailure::NotFound(source))
            }
        },
    }
}

/// With `Auto` and no key anywhere, the sources are tried in the documented
/// order — credential directory, keyring, key file, environment — and
/// resolution then fails with "not found".
pub proof fn law_auto_resolution_order()
    ensures
        first_lookup_of(KeySource::Auto) == KeyLookup::Credential,
        next_step(KeySource::Auto, KeyLookup::Credential, LookupOutcome::Missing) == ResolveStep::Next(KeyLookup::Keyring),
        next_step(KeySource::Auto, KeyLookup::Keyring, LookupOutcome::Missing) == ResolveStep::Next(KeyLookup::File),
        next_step(KeySource::Auto, KeyLookup::File, LookupOutcome::Missing) == ResolveStep::Next(KeyLookup::Env),
        next_step(KeySource::Auto, KeyLookup::Env, LookupOutcome::Missing)
            == ResolveStep::Fail(ResolveFailure::NotFound(KeySource::Auto)),
{
}

/// A found key always ends resolution, and a single configured source is the
/// only one tried.
pub proof fn law_single_source(source: KeySource, lookup: KeyLookup, outcome: LookupOutcome)
    requires
        source != KeySource::Auto,
    ensures
        next_step(source, lookup, outcome) !is Next,
        outcome == LookupOutcome::Found ==> next_step(source, lookup, outcome) == ResolveStep::Done,
{
}

} // verus!
