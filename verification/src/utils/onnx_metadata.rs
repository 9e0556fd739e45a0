//! ONNX model metadata: whether a model declares its `sample_rate`, and what
//! an attempt to add it amounts to.
//!
//! The helper script that reads or edits the model runs outside; these
//! functions judge its output and the raw bytes of the model.

use vstd::prelude::*;
use crate::utils::chars::{chars_of, chars_contain, contains_seq, str_eq};
use crate::utils::text::{trim, trim_str};

verus! {

/// The bytes of the metadata key `sample_rate`.
pub open spec fn sample_rate_key() -> Seq<u8> {
    seq![0x73u8, 0x61u8, 0x6du8, 0x70u8, 0x6cu8, 0x65u8, 0x5fu8, 0x72u8, 0x61u8, 0x74u8, 0x65u8]
}

fn bytes_match_at(hay: &[u8], needle: &[u8], at: usize) -> (r: bool)
    requires
        at + needle@.len() <= hay@.len(),
    ensures
        r == (hay@.subrange(at as int, at + needle@.len()) == needle@),
{
    let n = hay.len();
    let mut j: usize = 0;
    while j < needle.len()
        invariant
            j <= needle@.len(),
            at + needle@.len() <= hay@.len(),
            n == hay@.len(),
            forall|k: int| 0 <= k < j ==> hay@[at + k] == needle@[k],
        decreases needle.len() - j,
    {
        if hay[at + j] != needle[j] {
            assert(hay@.subrange(at as int, at + needle@.len())[j as int] != needle@[j as int]);
            return false;
        }
        j += 1;
    }
    assert(hay@.subrange(at as int, at + needle@.len()) =~= needle@);
    true
}

fn bytes_contain(hay: &[u8], needle: &[u8]) -> (r: bool)
    ensures
        r == contains_seq(hay@, needle@),
{
    if needle.len() > hay.len() {
        return false;
    }
    let last = hay.len() - needle.len();
    let mut i: usize = 0;
    loop
        invariant
            last + needle@.len() == hay@.len(),
            i <= last,
            forall|k: int| 0 <= k < i ==> #[trigger] hay@.subrange(k, k + needle@.len()) != needle@,
        decreases last - i,
    {
        if bytes_match_at(hay, needle, i) {
            return true;
        }
        if i == last {
            return false;
        }
        i += 1;
    }
}

/// Whether the bytes of a model hold the key `sample_rate` (the fallback
/// check on the head of the file when the helper script cannot run).
pub fn has_sample_rate_marker(data: &[u8]) -> (r: bool)
    ensures
        r == contains_seq(data@, sample_rate_key()),
{
    let key: [u8; 11] = [0x73, 0x61, 0x6d, 0x70, 0x6c, 0x65, 0x5f, 0x72, 0x61, 0x74, 0x65];
    assert(key@ == sample_rate_key());
    bytes_contain(data, key.as_slice())
}

/// Whether the helper script reported the key as present: its output,
/// trimmed, is `true`.
pub fn reports_sample_rate(stdout: &str) -> (r: bool)
    ensures
        r == (trim(stdout@) == "true"@),
{
    let t = trim_str(stdout);
    str_eq(t.as_str(), "true")
}

/// What an attempt to add the `sample_rate` key amounts to.
#[derive(Debug, Clone)]
pub enum MetadataOutcome {
    /// The script succeeded.
    Added,
    /// The script cannot edit models here (no `onnx` package): not an
    /// error, the model keeps its default sample rate.
    ToolUnavailable,
    /// The script failed with this error output.
    Failed { stderr: String },
}

/// Judges the helper script's run that adds the `sample_rate` key.
pub fn metadata_update_outcome(success: bool, stderr: &str) -> (r: MetadataOutcome)
    ensures
        success ==> r is Added,
        !success && contains_seq(stderr@, "onnx package not available"@) ==> r is ToolUnavailable,
        !success && !contains_seq(stderr@, "onnx package not available"@) ==> (r matches MetadataOutcome::Failed { stderr: e } && e@ == stderr@),
{
    if success {
        return MetadataOutcome::Added;
    }
    let hay = chars_of(stderr);
    let pat = chars_of("onnx package not available");
    if chars_contain(hay.as_slice(), pat.as_slice()) {
        MetadataOutcome::ToolUnavailable
    } else {
        MetadataOutcome::Failed { stderr: stderr.to_owned() }
    }
}

} // verus!
