//! DashScope (Alibaba Cloud Model Studio) request values and response decoding.

use vstd::prelude::*;
use vstd::string::{StringExecFns, StringSliceAdditionalSpecFns};
use vstd::utf8::{decode_utf8, encode_utf8, is_char_boundary};
use crate::config::models::{ApiConfig, effective_base_url_of};
use crate::utils::chars::{chars_of, string_from_range};
use crate::utils::text::{trim, trim_str};
use crate::utils::wav::{decode_pcm_le, pcm_samples};
use crate::utils::json::{json_lookup, json_string_lookup};

verus! {

broadcast use vstd::utf8::encode_utf8_decode_utf8;

/// Sample rate of the PCM returned by DashScope streaming TTS.
pub const DASHSCOPE_TTS_SAMPLE_RATE: u32 = 24_000;

/// The Base64 digit for a value below 64 (standard alphabet).
pub open spec fn base64_digit(v: int) -> char {
    if v < 26 {
        (65 + v) as char
    } else if v < 52 {
        (97 + v - 26) as char
    } else if v < 62 {
        (48 + v - 52) as char
    } else if v == 62 {
        '+'
    } else {
        '/'
    }
}

/// The padded standard-alphabet Base64 text of the bytes (what the `base64`
/// crate's standard engine `encode` returns): each group of three bytes
/// becomes four digits; a last group of one or two bytes is padded with `=`.
pub open spec fn base64_standard(bytes: Seq<u8>) -> Seq<char>
    decreases bytes.len(),
{
    if bytes.len() == 0 {
        seq![]
    } else if bytes.len() == 1 {
        let a = bytes[0] as int;
        seq![base64_digit(a / 4), base64_digit((a % 4) * 16), '=', '=']
    } else if bytes.len() == 2 {
        let a = bytes[0] as int;
        let b = bytes[1] as int;
        seq![base64_digit(a / 4), base64_digit((a % 4) * 16 + b / 16), base64_digit((b % 16) * 4), '=']
    } else {
        let a = bytes[0] as int;
        let b = bytes[1] as int;
        let c = bytes[2] as int;
        seq![
            base64_digit(a / 4),
            base64_digit((a % 4) * 16 + b / 16),
            base64_digit((b % 16) * 4 + c / 64),
            base64_digit(c % 64),
        ] + base64_standard(bytes.skip(3))
    }
}

/// What the `base64` crate's standard engine `decode` returns: the bytes
/// whose padded Base64 text is exactly `text` (that engine accepts only
/// canonical padding and no stray trailing bits), or `None` when there are
/// none.
pub open spec fn base64_standard_decoded(text: Seq<char>) -> Option<Seq<u8>> {
    if exists|b: Seq<u8>| base64_standard(b) == text {
        Some(choose|b: Seq<u8>| base64_standard(b) == text)
    } else {
        None
    }
}

/// Base64 text of the bytes (standard alphabet, padded).
///
/// Trusted: calls `Engine::encode` of `base64::engine::general_purpose::STANDARD`;
/// the contract states its result as `base64_standard`.
#[verifier::external_body]
fn base64_encode(bytes: &[u8]) -> (r: String)
    ensures
        r@ == base64_standard(bytes@),
{
    base64::Engine::encode(&base64::engine::general_purpose::STANDARD, bytes)
}

/// The bytes that Base64 text encodes.
///
/// Trusted: calls `Engine::decode` of `base64::engine::general_purpose::STANDARD`
/// and keeps `None` for its error; the contract states its result as
/// `base64_standard_decoded`.
#[verifier::external_body]
fn base64_decode(text: &str) -> (r: Option<Vec<u8>>)
    ensures
        match r {
            Some(b) => base64_standard_decoded(text@) == Some(b@),
            None => base64_standard_decoded(text@) is None,
        },
{
    base64::Engine::decode(&base64::engine::general_purpose::STANDARD, text).ok()
}

/// The HTTP timeout in seconds: the configured one, but at least 5.
pub fn request_timeout_secs(api: &ApiConfig) -> (r: u64)
    ensures
        r == if api.timeout_secs >= 5 { api.timeout_secs } else { 5 },
{
    if api.timeout_secs >= 5 {
        api.timeout_secs
    } else {
        5
    }
}

/// `s` without trailing `/` characters.
pub open spec fn strip_trailing_slashes(s: Seq<char>) -> Seq<char>
    decreases s.len(),
{
    if s.len() > 0 && s.last() == '/' {
        strip_trailing_slashes(s.drop_last())
    } else {
        s
    }
}

/// A client cannot be set up.
#[derive(Debug, Clone, Copy, PartialEq, Eq, Structural)]
pub enum ClientError {
    /// No base URL: the region is `custom` and none is configured.
    EmptyBaseUrl,
}

/// The base URL of the API: the effective base URL without trailing slashes.
/// Fails when that is empty.
pub fn client_base_url(api: &ApiConfig) -> (r: Result<String, ClientError>)
    ensures
        strip_trailing_slashes(effective_base_url_of(*api)).len() == 0 <==> r == Err::<String, ClientError>(
            ClientError::EmptyBaseUrl,
        ),
        r matches Ok(u) ==> u@ == strip_trailing_slashes(effective_base_url_of(*api)),
{
    let url = api.effective_base_url();
    let cs = chars_of(url.as_str());
    let mut end: usize = cs.len();
    assert(cs@.take(end as int) == cs@);
    while end > 0 && cs[end - 1] == '/'
        invariant
            end <= cs@.len(),
            cs@ == url@,
            strip_trailing_slashes(url@) == strip_trailing_slashes(cs@.take(end as int)),
        decreases end,
    {
        assert(cs@.take(end as int).drop_last() == cs@.take(end - 1));
        end -= 1;
    }
    assert(strip_trailing_slashes(cs@.take(end as int)) == cs@.take(end as int));
    if end == 0 {
        return Err(ClientError::EmptyBaseUrl);
    }
    assert(cs@.subrange(0, end as int) == cs@.take(end as int));
    Ok(string_from_range(cs.as_slice(), 0, end))
}

/// The multimodal generation endpoint under a base URL.
pub fn generation_url(base_url: &str) -> (r: String)
    ensures
        r@ == base_url@ + "/services/aigc/multimodal-generation/generation"@,
{
    let mut s = base_url.to_owned();
    s.append("/services/aigc/multimodal-generation/generation");
    s
}

/// The data URL under which a WAV file is uploaded for recognition.
pub fn asr_data_url(wav: &[u8]) -> (r: String)
    ensures
        r@ == "data:audio/wav;base64,"@ + base64_standard(wav@),
{
    let mut s = "data:audio/wav;base64,".to_owned();
    let b = base64_encode(wav);
    s.append(b.as_str());
    s
}

/// The recognition language hint to send: the given one unless it is empty.
pub fn asr_language_hint(language: Option<&str>) -> (r: Option<String>)
    ensures
        match language {
            Some(l) => if l@.len() > 0 { r matches Some(x) && x@ == l@ } else { r is None },
            None => r is None,
        },
{
    match language {
        Some(l) => {
            if l.is_empty() {
                None
            } else {
                Some(l.to_owned())
            }
        },
        None => None,
    }
}

/// The three places a recognition response may hold its text, in order.
pub open spec fn asr_text_of(body: Seq<char>) -> Option<Seq<char>> {
    match json_string_lookup(body, "/output/choices/0/message/content/0/text"@) {
        Some(Some(t)) => Some(trim(t)),
        _ => match json_string_lookup(body, "/output/output/sentence/text"@) {
            Some(Some(t)) => Some(trim(t)),
            _ => match json_string_lookup(body, "/output/text"@) {
                Some(Some(t)) => Some(trim(t)),
                _ => None,
            },
        },
    }
}

/// Extract recognized text from any of the DashScope ASR response shapes.
pub fn extract_asr_text(body: &str) -> (r: Option<String>)
    ensures
        match r {
            Some(t) => asr_text_of(body@) == Some(t@),
            None => asr_text_of(body@) is None,
        },
{
    if let Some(Some(t)) = json_lookup(body, "/output/choices/0/message/content/0/text") {
        return Some(trim_str(t.as_str()));
    }
    if let Some(Some(t)) = json_lookup(body, "/output/output/sentence/text") {
        return Some(trim_str(t.as_str()));
    }
    if let Some(Some(t)) = json_lookup(body, "/output/text") {
        return Some(trim_str(t.as_str()));
    }
    None
}

/// The text of a recognition response: `None` when the body is not JSON;
/// otherwise the recognized text, or empty when there is none.
pub open spec fn asr_response_text(body: Seq<char>) -> Option<Seq<char>> {
    if json_string_lookup(body, "/output/text"@) is None {
        None
    } else {
        match asr_text_of(body) {
            Some(t) => Some(t),
            None => Some(Seq::empty()),
        }
    }
}

/// The recognized text of a response body; `None` when the body is not JSON.
pub fn asr_text_from_response(body: &str) -> (r: Option<String>)
    ensures
        match r {
            Some(t) => asr_response_text(body@) == Some(t@),
            None => asr_response_text(body@) is None,
        },
{
    if json_lookup(body, "/output/text").is_none() {
        return None;
    }
    match extract_asr_text(body) {
        Some(t) => Some(t),
        None => Some(String::new()),
    }
}

/// The samples of one streamed synthesis event: the Base64 PCM at
/// `/output/audio/data`, as little-endian 16-bit samples.
pub open spec fn tts_chunk_samples(data: Seq<char>) -> Option<Seq<i16>> {
    match json_string_lookup(data, "/output/audio/data"@) {
        Some(Some(enc)) => match base64_standard_decoded(enc) {
            Some(bytes) => Some(pcm_samples(bytes)),
            None => None,
        },
        _ => None,
    }
}

/// Decode a streaming TTS event payload into PCM i16 samples.
pub fn decode_tts_chunk(data: &str) -> (r: Option<Vec<i16>>)
    ensures
        match r {
            Some(v) => tts_chunk_samples(data@) == Some(v@),
            None => tts_chunk_samples(data@) is None,
        },
{
    let enc = match json_lookup(data, "/output/audio/data") {
        Some(Some(e)) => e,
        _ => return None,
    };
    let bytes = match base64_decode(enc.as_str()) {
        Some(b) => b,
        None => return None,
    };
    Some(decode_pcm_le(bytes.as_slice()))
}

/// The audio URL of a non-streamed synthesis response (`/output/audio/url`).
pub fn tts_audio_url(body: &str) -> (r: Option<String>)
    ensures
        match r {
            Some(u) => json_string_lookup(body@, "/output/audio/url"@) == Some(Some(u@)),
            None => !(json_string_lookup(body@, "/output/audio/url"@) matches Some(Some(_))),
        },
{
    match json_lookup(body, "/output/audio/url") {
        Some(Some(u)) => Some(u),
        _ => None,
    }
}

/// The largest character boundary of `b` at or below `k`.
pub open spec fn boundary_at_most(b: Seq<u8>, k: int) -> int
    decreases k,
{
    if k <= 0 {
        0
    } else if is_char_boundary(b, k) {
        k
    } else {
        boundary_at_most(b, k - 1)
    }
}

/// `t` kept short: when its UTF-8 form is longer than 400 bytes, the
/// characters within its first 400 bytes, then `…`.
pub open spec fn shortened(t: Seq<char>) -> Seq<char> {
    let b = encode_utf8(t);
    if b.len() > 400 {
        decode_utf8(b.subrange(0, boundary_at_most(b, 400))) + seq!['…']
    } else {
        t
    }
}

fn shorten(s: String) -> (r: String)
    ensures
        r@ == shortened(s@),
{
    let t = s.as_str();
    let n = t.as_bytes().len();
    if n <= 400 {
        return s;
    }
    let ghost b = t.spec_bytes();
    let mut k: usize = 400;
    while k > 0 && !t.is_char_boundary(k)
        invariant
            k <= 400,
            b == t.spec_bytes(),
            boundary_at_most(b, 400) == boundary_at_most(b, k as int),
        decreases k,
    {
        k -= 1;
    }
    proof {
        vstd::utf8::encode_utf8_valid_utf8(t@);
        vstd::utf8::is_char_boundary_start_end_of_seq(b);
    }
    let (head, _) = t.split_at(k);
    let mut r = head.to_owned();
    r.append("…");
    proof {
        reveal_strlit("…");
        assert(boundary_at_most(b, k as int) == k);
        assert(decode_utf8(encode_utf8(head@)) == head@);
    }
    r
}

/// An error body as reported: `<empty response>` when blank; the JSON
/// `code` and `message` joined by a space, trimmed and kept short when either
/// is non-empty; otherwise the trimmed body, cut after 400 bytes with `…`.
pub open spec fn error_summary(body: Seq<char>) -> Seq<char> {
    let t = trim(body);
    let b = encode_utf8(t);
    let snippet = if b.len() > 400 {
        decode_utf8(b.subrange(0, 400)) + seq!['…']
    } else {
        t
    };
    let code = match json_string_lookup(t, "/code"@) {
        Some(Some(c)) => c,
        _ => Seq::empty(),
    };
    let message = match json_string_lookup(t, "/message"@) {
        Some(Some(m)) => m,
        _ => Seq::empty(),
    };
    if t.len() == 0 {
        "<empty response>"@
    } else if code.len() != 0 || message.len() != 0 {
        shortened(trim(code + seq![' '] + message))
    } else {
        snippet
    }
}

/// Keep error bodies short and never echo secrets.
///
/// A trimmed body longer than 400 bytes must have a character boundary at
/// byte 400.
pub fn summarize_error(body: &str) -> (r: String)
    requires
        encode_utf8(trim(body@)).len() > 400 ==> is_char_boundary(encode_utf8(trim(body@)), 400),
    ensures
        r@ == error_summary(body@),
{
    let trimmed = trim_str(body);
    let t = trimmed.as_str();
    if t.is_empty() {
        return "<empty response>".to_owned();
    }
    let snippet = if t.as_bytes().len() > 400 {
        let (head, _) = t.split_at(400);
        let mut s = head.to_owned();
        s.append("…");
        proof {
            reveal_strlit("…");
            assert(decode_utf8(encode_utf8(head@)) == head@);
        }
        s
    } else {
        trimmed.clone()
    };
    let code = match json_lookup(t, "/code") {
        Some(Some(c)) => c,
        _ => String::new(),
    };
    let message = match json_lookup(t, "/message") {
        Some(Some(m)) => m,
        _ => String::new(),
    };
    if !code.as_str().is_empty() || !message.as_str().is_empty() {
        let mut joined = code;
        joined.append(" ");
        joined.append(message.as_str());
        proof {
            reveal_strlit(" ");
            assert(joined@ =~= code@ + seq![' '] + message@);
        }
        return shorten(trim_str(joined.as_str()));
    }
    snippet
}

} // verus!
