//! The lossless strategy: 16-bit PCM in a RIFF/WAVE container.

use vstd::prelude::*;
use crate::bytes::{append_bytes, append_le16, append_le32, le16, le32};
use crate::ring::AudioError;
use crate::transport::{base64_encode, base64_spec};

verus! {

/// Bytes before the first sample: the RIFF, format and data chunk headers.
pub const WAV_HEADER_LEN: usize = 44;

/// The 16-bit two's complement pattern of `s`, as a number.
pub open spec fn twos_complement(s: i16) -> int {
    if s < 0 {
        s + 65536
    } else {
        s as int
    }
}

/// The two little-endian bytes of a sample in two's complement.
pub open spec fn sample_bytes(s: i16) -> Seq<u8> {
    le16(twos_complement(s))
}

/// The sample bytes of `samples`, in order.
pub open spec fn pcm_bytes(samples: Seq<i16>) -> Seq<u8>
    decreases samples.len(),
{
    if samples.len() == 0 {
        seq![]
    } else {
        pcm_bytes(samples.drop_last()) + sample_bytes(samples.last())
    }
}

/// The container for `samples`: a RIFF chunk of type WAVE holding a 16-byte
/// format chunk (PCM, `channels`, `sample_rate`, byte rate, block alignment,
/// 16 bits a sample) and a data chunk with the samples.
pub open spec fn wav_spec(samples: Seq<i16>, sample_rate: u32, channels: u16) -> Seq<u8> {
    let data_len = 2 * samples.len() as int;
    seq![82u8, 73u8, 70u8, 70u8] + le32(36 + data_len) + seq![87u8, 65u8, 86u8, 69u8]
        + seq![102u8, 109u8, 116u8, 32u8] + le32(16) + le16(1) + le16(channels as int)
        + le32(sample_rate as int) + le32((sample_rate as int * channels as int * 2) % 0x1_0000_0000)
        + le16((channels as int * 2) % 0x1_0000) + le16(16) + seq![100u8, 97u8, 116u8, 97u8]
        + le32(data_len) + pcm_bytes(samples)
}

/// Whether `samples` fit the container's 32-bit length fields.
pub open spec fn wav_fits(n: int) -> bool {
    36 + 2 * n <= u32::MAX
}

/// The sample stored at byte offset `at` of `b`.
pub open spec fn read_sample(b: Seq<u8>, at: int) -> i16 {
    let v = b[at] as int + 256 * b[at + 1] as int;
    if v >= 32768 {
        (v - 65536) as i16
    } else {
        v as i16
    }
}

/// The samples that a reader finds after the header of `b`.
pub open spec fn wav_samples(b: Seq<u8>) -> Seq<i16> {
    Seq::new(((b.len() - WAV_HEADER_LEN) / 2) as nat, |i: int| read_sample(b, WAV_HEADER_LEN + 2 * i))
}

/// The container for `samples`, or `WriteError` when they do not fit its
/// 32-bit length fields.
pub fn encode_wav(samples: &[i16], sample_rate: u32, channels: u16) -> (r: Result<Vec<u8>, AudioError>)
    ensures
        match r {
            Ok(b) => wav_fits(samples@.len() as int) && b@ == wav_spec(samples@, sample_rate, channels),
            Err(e) => !wav_fits(samples@.len() as int) && e == AudioError::WriteError,
        },
{
    let n = samples.len();
    if n > (0xffff_ffffusize - 36) / 2 {
        return Err(AudioError::WriteError);
    }
    let data_len: u32 = (2 * n) as u32;
    let mut out: Vec<u8> = Vec::new();
    let riff: [u8; 4] = [82, 73, 70, 70];
    let wave: [u8; 4] = [87, 65, 86, 69];
    let fmt: [u8; 4] = [102, 109, 116, 32];
    let data: [u8; 4] = [100, 97, 116, 97];
    append_bytes(&mut out, &riff);
    append_le32(&mut out, 36 + data_len);
    append_bytes(&mut out, &wave);
    append_bytes(&mut out, &fmt);
    append_le32(&mut out, 16);
    append_le16(&mut out, 1);
    append_le16(&mut out, channels);
    append_le32(&mut out, sample_rate);
    let rate: u64 = sample_rate as u64;
    let ch: u64 = channels as u64;
    assert(rate * ch * 2 <= 0xffff_ffff_u64 * 0xffff_u64 * 2) by (nonlinear_arith)
        requires
            rate <= 0xffff_ffff_u64,
            ch <= 0xffff_u64,
    ;
    let byte_rate: u64 = rate * ch * 2;
    append_le32(&mut out, (byte_rate % 0x1_0000_0000) as u32);
    let block_align: u32 = channels as u32 * 2;
    append_le16(&mut out, (block_align % 0x1_0000) as u16);
    append_le16(&mut out, 16);
    append_bytes(&mut out, &data);
    append_le32(&mut out, data_len);
    let ghost header = out@;
    let mut i: usize = 0;
    while i < n
        invariant
            n == samples@.len(),
            i <= n,
            out@ == header + pcm_bytes(samples@.subrange(0, i as int)),
        decreases n - i,
    {
        let v: i16 = samples[i];
        let pattern: u16 = if v < 0 {
            (v as i32 + 65536) as u16
        } else {
            v as u16
        };
        append_le16(&mut out, pattern);
        assert(samples@.subrange(0, i + 1).drop_last() =~= samples@.subrange(0, i as int));
        i = i + 1;
    }
    assert(samples@.subrange(0, n as int) =~= samples@);
    assert(riff@ =~= seq![82u8, 73u8, 70u8, 70u8]);
    assert(wave@ =~= seq![87u8, 65u8, 86u8, 69u8]);
    assert(fmt@ =~= seq![102u8, 109u8, 116u8, 32u8]);
    assert(data@ =~= seq![100u8, 97u8, 116u8, 97u8]);
    assert(out@ =~= wav_spec(samples@, sample_rate, channels));
    Ok(out)
}

/// The container for `samples`, as base64 text for transport, or
/// `WriteError` when they do not fit its 32-bit length fields.
pub fn wav_base64(samples: &[i16], sample_rate: u32, channels: u16) -> (r: Result<String, AudioError>)
    ensures
        match r {
            Ok(t) => wav_fits(samples@.len() as int) && t@ == base64_spec(
                wav_spec(samples@, sample_rate, channels),
            ).map_values(|c: u8| c as char),
            Err(e) => !wav_fits(samples@.len() as int) && e == AudioError::WriteError,
        },
{
    match encode_wav(samples, sample_rate, channels) {
        Ok(bytes) => Ok(base64_encode(bytes.as_slice())),
        Err(e) => Err(e),
    }
}

proof fn lemma_pcm_bytes(samples: Seq<i16>)
    ensures
        pcm_bytes(samples).len() == 2 * samples.len(),
        forall|i: int|
            0 <= i < samples.len() ==> pcm_bytes(samples)[2 * i] == sample_bytes(#[trigger] samples[i])[0]
                && pcm_bytes(samples)[2 * i + 1] == sample_bytes(samples[i])[1],
    decreases samples.len(),
{
    if samples.len() > 0 {
        let init = samples.drop_last();
        lemma_pcm_bytes(init);
        assert forall|i: int| 0 <= i < samples.len() implies pcm_bytes(samples)[2 * i] == sample_bytes(
            #[trigger] samples[i],
        )[0] && pcm_bytes(samples)[2 * i + 1] == sample_bytes(samples[i])[1] by {
            if i < init.len() {
                assert(init[i] == samples[i]);
            }
        }
    }
}

proof fn lemma_read_sample_bytes(x: i16)
    ensures
        ({
            let b = sample_bytes(x);
            b[0] as int + 256 * b[1] as int == twos_complement(x)
        }),
        read_sample(sample_bytes(x), 0) == x,
{
}

/// A reader of the container finds exactly the samples written, in order,
/// after a header of `WAV_HEADER_LEN` bytes.
pub proof fn lemma_wav_round_trip(samples: Seq<i16>, sample_rate: u32, channels: u16)
    ensures
        wav_spec(samples, sample_rate, channels).len() == WAV_HEADER_LEN + 2 * samples.len(),
        wav_samples(wav_spec(samples, sample_rate, channels)) == samples,
{
    let b = wav_spec(samples, sample_rate, channels);
    let p = pcm_bytes(samples);
    lemma_pcm_bytes(samples);
    assert(b.len() == 44 + 2 * samples.len());
    assert forall|i: int| 0 <= i < samples.len() implies #[trigger] read_sample(b, 44 + 2 * i) == samples[i] by {
        assert(b[44 + 2 * i] == p[2 * i]);
        assert(b[44 + 2 * i + 1] == p[2 * i + 1]);
        lemma_read_sample_bytes(samples[i]);
    }
    assert(wav_samples(b) =~= samples);
}

} // verus!
