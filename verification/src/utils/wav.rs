//! WAV encoding of 16-bit mono PCM.

use vstd::prelude::*;

verus! {

/// Little-endian bytes of a 16-bit unsigned value.
pub open spec fn le16(x: int) -> Seq<u8> {
    seq![(x % 256) as u8, ((x / 256) % 256) as u8]
}

/// Little-endian bytes of a 32-bit unsigned value.
pub open spec fn le32(x: int) -> Seq<u8> {
    seq![
        (x % 256) as u8,
        ((x / 256) % 256) as u8,
        ((x / 65536) % 256) as u8,
        ((x / 16777216) % 256) as u8,
    ]
}

/// The two's-complement 16-bit pattern of a sample, as an unsigned value.
pub open spec fn sample_bits(x: i16) -> int {
    if x < 0 {
        x + 65536
    } else {
        x as int
    }
}

/// Samples as consecutive little-endian 16-bit values.
pub open spec fn pcm_le(samples: Seq<i16>) -> Seq<u8> {
    Seq::new(2 * samples.len(), |k: int| le16(sample_bits(samples[k / 2]))[k % 2])
}

/// The sample whose little-endian bytes are `lo`, `hi`.
pub open spec fn sample_from_le(lo: u8, hi: u8) -> i16 {
    let v = lo + 256 * hi;
    if v >= 32768 {
        (v - 65536) as i16
    } else {
        v as i16
    }
}

/// Consecutive little-endian 16-bit samples; a trailing odd byte is ignored.
pub open spec fn pcm_samples(bytes: Seq<u8>) -> Seq<i16> {
    Seq::new(bytes.len() / 2, |i: int| sample_from_le(bytes[2 * i], bytes[2 * i + 1]))
}

/// Decodes little-endian 16-bit samples; a trailing odd byte is ignored.
pub fn decode_pcm_le(bytes: &[u8]) -> (r: Vec<i16>)
    ensures
        r@ == pcm_samples(bytes@),
{
    let len = bytes.len();
    let n = len / 2;
    let mut out: Vec<i16> = Vec::new();
    let mut i: usize = 0;
    while i < n
        invariant
            i <= n,
            len == bytes@.len(),
            n == len / 2,
            out@ == pcm_samples(bytes@).take(i as int),
        decreases n - i,
    {
        assert(2 * i + 1 < bytes@.len());
        let lo = bytes[2 * i];
        let hi = bytes[2 * i + 1];
        let v: u32 = lo as u32 + 256 * hi as u32;
        let x: i16 = if v >= 32768 {
            (v as i32 - 65536) as i16
        } else {
            v as i16
        };
        out.push(x);
        assert(out@ == pcm_samples(bytes@).take(i + 1));
        i += 1;
    }
    assert(pcm_samples(bytes@).take(n as int) == pcm_samples(bytes@));
    out
}

/// Decoding the bytes that `pcm_le` produces gives back the samples.
pub proof fn lemma_pcm_roundtrip(samples: Seq<i16>)
    ensures
        pcm_samples(pcm_le(samples)) == samples,
{
    let b = pcm_le(samples);
    assert forall|i: int| 0 <= i < samples.len() implies #[trigger] pcm_samples(b)[i] == samples[i] by {
        let u = sample_bits(samples[i]);
        assert(0 <= u < 65536);
        assert((2 * i) / 2 == i && (2 * i) % 2 == 0);
        assert((2 * i + 1) / 2 == i && (2 * i + 1) % 2 == 1);
        assert(b[2 * i] == (u % 256) as u8);
        assert(b[2 * i + 1] == ((u / 256) % 256) as u8);
        assert((u % 256) + 256 * ((u / 256) % 256) == u) by (nonlinear_arith)
            requires 0 <= u < 65536;
    }
    assert(pcm_samples(b) =~= samples);
}

/// The audio section of a WAV file is the samples' bytes, which decode back to
/// the samples.
pub proof fn law_wav_data_decodes_to_samples(samples: Seq<i16>, rate: u32)
    ensures
        wav_file(samples, rate).len() == 44 + 2 * samples.len(),
        wav_file(samples, rate).skip(44) == pcm_le(samples),
        pcm_samples(wav_file(samples, rate).skip(44)) == samples,
{
    assert(wav_header(samples.len(), rate).len() == 44);
    assert(wav_file(samples, rate).skip(44) =~= pcm_le(samples));
    lemma_pcm_roundtrip(samples);
}

/// The 44-byte header of a 16-bit mono PCM WAV file holding `n` samples at
/// `rate` Hz. The size fields are taken modulo 2^32.
pub open spec fn wav_header(n: nat, rate: u32) -> Seq<u8> {
    seq![82u8, 73, 70, 70] // "RIFF"
    + le32(((2 * n + 36) % 0x1_0000_0000) as int)
    + seq![87u8, 65, 86, 69] // "WAVE"
    + seq![102u8, 109, 116, 32] // "fmt "
    + le32(16)
    + le16(1) // PCM
    + le16(1) // mono
    + le32(rate as int)
    + le32(2 * rate)
    + le16(2) // block align
    + le16(16) // bits per sample
    + seq![100u8, 97, 116, 97] // "data"
    + le32(((2 * n) % 0x1_0000_0000) as int)
}

/// The complete WAV file for `samples` at `rate` Hz.
pub open spec fn wav_file(samples: Seq<i16>, rate: u32) -> Seq<u8> {
    wav_header(samples.len(), rate) + pcm_le(samples)
}

/// The number a little-endian 32-bit field holds.
pub open spec fn le32_value(b: Seq<u8>) -> int {
    b[0] + 256 * b[1] + 65536 * b[2] + 16777216 * b[3]
}

/// Reading back a value written as little-endian 32 bits gives the value.
proof fn lemma_le32_value(x: int)
    requires
        0 <= x < 0x1_0000_0000,
    ensures
        le32(x).len() == 4,
        le32_value(le32(x)) == x,
{
    let q1 = x / 256;
    let q2 = q1 / 256;
    let q3 = q2 / 256;
    vstd::arithmetic::div_mod::lemma_fundamental_div_mod(x, 256);
    vstd::arithmetic::div_mod::lemma_fundamental_div_mod(q1, 256);
    vstd::arithmetic::div_mod::lemma_fundamental_div_mod(q2, 256);
    assert(x / 65536 == q2) by {
        vstd::arithmetic::div_mod::lemma_div_denominator(x, 256, 256);
    }
    assert(x / 16777216 == q3) by {
        vstd::arithmetic::div_mod::lemma_div_denominator(x, 65536, 256);
    }
    assert(0 <= q3 < 256) by (nonlinear_arith)
        requires
            q3 == (x / 16777216),
            0 <= x < 0x1_0000_0000,
    {
        assert(x / 16777216 < 256);
    }
    assert(q3 % 256 == q3);
}

/// A stretch of the front part of `h + p` is that stretch of `h`.
proof fn lemma_prefix_subrange(h: Seq<u8>, p: Seq<u8>, a: int, b: int)
    requires
        0 <= a <= b <= h.len(),
    ensures
        (h + p).subrange(a, b) == h.subrange(a, b),
{
    assert((h + p).subrange(a, b) =~= h.subrange(a, b));
}

/// Where the size and rate fields stand in the header.
proof fn lemma_wav_header_fields(n: nat, rate: u32)
    ensures
        wav_header(n, rate).len() == 44,
        wav_header(n, rate).subrange(40, 44) == le32(((2 * n) % 0x1_0000_0000) as int),
        wav_header(n, rate).subrange(4, 8) == le32(((2 * n + 36) % 0x1_0000_0000) as int),
        wav_header(n, rate).subrange(24, 28) == le32(rate as int),
        wav_header(n, rate).subrange(28, 32) == le32(2 * rate),
{
    let riff = seq![82u8, 73, 70, 70] + le32(((2 * n + 36) % 0x1_0000_0000) as int);
    let a = riff + seq![87u8, 65, 86, 69] + seq![102u8, 109, 116, 32] + le32(16) + le16(1) + le16(1);
    let b = a + le32(rate as int);
    let c = b + le32(2 * rate);
    let d = c + le16(2) + le16(16) + seq![100u8, 97, 116, 97];
    let h = d + le32(((2 * n) % 0x1_0000_0000) as int);
    assert(h == wav_header(n, rate));
    assert(riff.len() == 8 && a.len() == 24 && b.len() == 28 && c.len() == 32 && d.len() == 40);
    assert(h.subrange(40, 44) =~= le32(((2 * n) % 0x1_0000_0000) as int));
    assert(h.subrange(4, 8) =~= riff.subrange(4, 8));
    assert(riff.subrange(4, 8) =~= le32(((2 * n + 36) % 0x1_0000_0000) as int));
    assert(h.subrange(24, 28) =~= b.subrange(24, 28));
    assert(b.subrange(24, 28) =~= le32(rate as int));
    assert(h.subrange(28, 32) =~= c.subrange(28, 32));
    assert(c.subrange(28, 32) =~= le32(2 * rate));
}

/// The header's size and rate fields read back as what they describe: the
/// data-chunk size is the number of audio bytes after the 44-byte header, the
/// RIFF size is the file's length less 8, and the rate fields are the sample
/// rate and twice it (each while it fits in 32 bits).
#[verifier::spinoff_prover]
pub proof fn law_wav_header_fields(samples: Seq<i16>, rate: u32)
    ensures
        wav_file(samples, rate).len() == 44 + 2 * samples.len(),
        2 * samples.len() < 0x1_0000_0000 ==> le32_value(wav_file(samples, rate).subrange(40, 44))
            == 2 * samples.len(),
        2 * samples.len() < 0x1_0000_0000 ==> le32_value(wav_file(samples, rate).subrange(40, 44))
            == wav_file(samples, rate).len() - 44,
        2 * samples.len() + 36 < 0x1_0000_0000 ==> le32_value(wav_file(samples, rate).subrange(4, 8))
            == wav_file(samples, rate).len() - 8,
        le32_value(wav_file(samples, rate).subrange(24, 28)) == rate,
        2 * rate < 0x1_0000_0000 ==> le32_value(wav_file(samples, rate).subrange(28, 32)) == 2 * rate,
{
    lemma_wav_file_fields(samples, rate);
    let n = samples.len();
    let f = wav_file(samples, rate);
    let d = le32_value(f.subrange(40, 44));
    let r = le32_value(f.subrange(4, 8));
    assert(2 * n < 0x1_0000_0000 ==> d == 2 * n) by (nonlinear_arith)
        requires
            d == (2 * n) % 0x1_0000_0000;
    assert(2 * n + 36 < 0x1_0000_0000 ==> r == 2 * n + 36) by (nonlinear_arith)
        requires
            r == (2 * n + 36) % 0x1_0000_0000;
}

/// The size and rate fields of a WAV file, as written.
#[verifier::spinoff_prover]
proof fn lemma_wav_file_fields(samples: Seq<i16>, rate: u32)
    ensures
        wav_file(samples, rate).len() == 44 + 2 * samples.len(),
        le32_value(wav_file(samples, rate).subrange(40, 44)) == (2 * samples.len()) % 0x1_0000_0000,
        le32_value(wav_file(samples, rate).subrange(4, 8)) == (2 * samples.len() + 36) % 0x1_0000_0000,
        le32_value(wav_file(samples, rate).subrange(24, 28)) == rate,
        2 * rate < 0x1_0000_0000 ==> le32_value(wav_file(samples, rate).subrange(28, 32)) == 2 * rate,
{
    let n = samples.len();
    let h = wav_header(n, rate);
    let p = pcm_le(samples);
    lemma_wav_header_fields(n, rate);
    lemma_prefix_subrange(h, p, 40, 44);
    lemma_prefix_subrange(h, p, 4, 8);
    lemma_prefix_subrange(h, p, 24, 28);
    lemma_prefix_subrange(h, p, 28, 32);
    lemma_le32_value(((2 * n) % 0x1_0000_0000) as int);
    lemma_le32_value(((2 * n + 36) % 0x1_0000_0000) as int);
    lemma_le32_value(rate as int);
    if 2 * rate < 0x1_0000_0000 {
        lemma_le32_value(2 * rate);
    }
}

/// A failure to write the WAV bytes. Writing into memory does not fail, so
/// `create_wav_buffer` never returns it.
#[derive(Debug, Clone, Copy, PartialEq, Eq)]
pub enum WavError {
    /// The buffer could not be written.
    Write,
}

fn push_le16(buf: &mut Vec<u8>, x: u16)
    ensures
        final(buf)@ == old(buf)@ + le16(x as int),
{
    buf.push((x % 256) as u8);
    buf.push((x / 256) as u8);
}

fn push_le32(buf: &mut Vec<u8>, x: u32)
    ensures
        final(buf)@ == old(buf)@ + le32(x as int),
{
    buf.push((x % 256) as u8);
    buf.push(((x / 256) % 256) as u8);
    buf.push(((x / 65536) % 256) as u8);
    buf.push(((x / 16777216) % 256) as u8);
}

fn push4(buf: &mut Vec<u8>, a: u8, b: u8, c: u8, d: u8)
    ensures
        final(buf)@ == old(buf)@ + seq![a, b, c, d],
{
    buf.push(a);
    buf.push(b);
    buf.push(c);
    buf.push(d);
}

/// Builds a 16-bit mono PCM WAV file from the samples.
///
/// The byte rate `2 * sample_rate` must fit in 32 bits.
pub fn create_wav_buffer(samples: &[i16], sample_rate: u32) -> (r: Result<Vec<u8>, WavError>)
    requires
        samples@.len() * 2 + 36 <= usize::MAX,
        sample_rate <= u32::MAX / 2,
    ensures
        r is Ok,
        r matches Ok(buf) ==> buf@ == wav_file(samples@, sample_rate),
{
    let n = samples.len();
    let mut buffer: Vec<u8> = Vec::new();
    push4(&mut buffer, 82, 73, 70, 70);
    let riff_size = ((n as u64 * 2 + 36) % 0x1_0000_0000) as u32;
    push_le32(&mut buffer, riff_size);
    push4(&mut buffer, 87, 65, 86, 69);
    push4(&mut buffer, 102, 109, 116, 32);
    push_le32(&mut buffer, 16);
    push_le16(&mut buffer, 1);
    push_le16(&mut buffer, 1);
    push_le32(&mut buffer, sample_rate);
    push_le32(&mut buffer, sample_rate * 2);
    push_le16(&mut buffer, 2);
    push_le16(&mut buffer, 16);
    push4(&mut buffer, 100, 97, 116, 97);
    let data_size = ((n as u64 * 2) % 0x1_0000_0000) as u32;
    push_le32(&mut buffer, data_size);
    assert(buffer@ == wav_header(n as nat, sample_rate));
    let ghost header = buffer@;
    let mut i: usize = 0;
    while i < n
        invariant
            i <= n,
            n == samples@.len(),
            buffer@ == header + pcm_le(samples@.take(i as int)),
        decreases n - i,
    {
        let x = samples[i];
        let bits: u16 = if x < 0 {
            (x as i32 + 65536) as u16
        } else {
            x as u16
        };
        push_le16(&mut buffer, bits);
        proof {
            assert(bits as int == sample_bits(x));
            let t = samples@.take(i + 1);
            assert(pcm_le(t) =~= pcm_le(samples@.take(i as int)) + le16(bits as int));
        }
        i += 1;
    }
    assert(samples@.take(n as int) == samples@);
    Ok(buffer)
}

} // verus!
