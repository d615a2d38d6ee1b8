//! The compressed strategy: Opus packets framed into an Ogg stream.
//!
//! The stream is one header packet, one tag packet, then one packet per frame
//! of encoded audio. Each audio packet carries the granule position at its end,
//! counted at the codec's fixed 48 kHz whatever the output rate, and only the
//! last packet ends the stream.

use vstd::prelude::*;
use vstd::arithmetic::div_mod::{lemma_fundamental_div_mod, lemma_mod_pos_bound};
use crate::bytes::{append_bytes, append_le16, append_le32, le16, le32};
use crate::ogg_stream::{PacketEnd, PacketSpec, into_bytes, new_writer, ogg_pages, packets_written, write_packet};
use crate::transport::{base64_encode, base64_spec};
use crate::ring::AudioError;

verus! {

/// Output sample rate of the compressed stream.
pub const OUTPUT_SAMPLE_RATE: u32 = 16000;

/// Output channels of the compressed stream.
pub const OUTPUT_CHANNELS: u8 = 1;

/// Samples the decoder discards at the start: the encoder's look-ahead.
pub const PRE_SKIP: u16 = 312;

/// Samples in one frame: 20 ms at the output rate.
pub const FRAME_SIZE: usize = 320;

/// Granule advance of one frame: 20 ms at the codec's 48 kHz.
pub const GRANULE_PER_FRAME: u64 = 960;

/// Serial number of the logical stream.
pub const STREAM_SERIAL: u32 = 0x504C5545;

/// The magic signature of the header packet, "OpusHead".
pub open spec fn head_magic() -> Seq<u8> {
    seq![79u8, 112u8, 117u8, 115u8, 72u8, 101u8, 97u8, 100u8]
}

/// The magic signature of the tag packet, "OpusTags".
pub open spec fn tags_magic() -> Seq<u8> {
    seq![79u8, 112u8, 117u8, 115u8, 84u8, 97u8, 103u8, 115u8]
}

/// The vendor string of the tag packet.
pub open spec fn vendor_spec() -> Seq<u8> {
    seq![112u8, 108u8, 117u8, 101u8, 108u8, 121u8]
}

/// The header packet: magic, version 1, channel count, pre-skip, input
/// sample rate, output gain 0 and channel mapping family 0.
pub open spec fn opus_head_spec(channels: u8, pre_skip: u16, sample_rate: u32) -> Seq<u8> {
    head_magic() + seq![1u8, channels] + le16(pre_skip as int) + le32(sample_rate as int) + le16(0)
        + seq![0u8]
}

/// The tag packet: magic, the length-prefixed vendor string, and no comments.
pub open spec fn opus_tags_spec(vendor: Seq<u8>) -> Seq<u8> {
    tags_magic() + le32(vendor.len() as int) + vendor + le32(0)
}

/// Frames needed for `n` samples at `fs` samples a frame: the ceiling of `n / fs`.
pub open spec fn frame_count(n: int, fs: int) -> int {
    (n + fs - 1) / fs
}

/// `s` cut into frames of `fs` samples; the last frame, when `s` does not
/// fill it, is completed with `silence`.
pub open spec fn frames_spec<T>(s: Seq<T>, fs: int, silence: T) -> Seq<Seq<T>> {
    Seq::new(
        frame_count(s.len() as int, fs) as nat,
        |i: int| Seq::new(fs as nat, |k: int| if i * fs + k < s.len() { s[i * fs + k] } else { silence }),
    )
}

/// The views of the vectors in `s`.
pub open spec fn views<T>(s: Seq<Vec<T>>) -> Seq<Seq<T>> {
    s.map_values(|f: Vec<T>| f@)
}

/// The audio packet for frame `i` of `frames`.
pub open spec fn audio_packet(frames: Seq<Seq<u8>>, i: int) -> PacketSpec {
    (
        frames[i],
        STREAM_SERIAL,
        if i == frames.len() - 1 { PacketEnd::EndStream } else { PacketEnd::Normal },
        ((i + 1) * GRANULE_PER_FRAME) as u64,
    )
}

/// Every packet of the stream that carries the encoded `frames`, in order.
pub open spec fn opus_packets(frames: Seq<Seq<u8>>) -> Seq<PacketSpec> {
    seq![
        (opus_head_spec(OUTPUT_CHANNELS, PRE_SKIP, OUTPUT_SAMPLE_RATE), STREAM_SERIAL, PacketEnd::EndPage, 0u64),
        (opus_tags_spec(vendor_spec()), STREAM_SERIAL, PacketEnd::EndPage, 0u64),
    ] + Seq::new(frames.len(), |i: int| audio_packet(frames, i))
}

/// The header packet for a stream of `channels` channels at `sample_rate`.
pub fn opus_head(channels: u8, pre_skip: u16, sample_rate: u32) -> (r: Vec<u8>)
    ensures
        r@ == opus_head_spec(channels, pre_skip, sample_rate),
{
    let magic: [u8; 8] = [79, 112, 117, 115, 72, 101, 97, 100];
    let mut head: Vec<u8> = Vec::with_capacity(19);
    append_bytes(&mut head, &magic);
    assert(magic@ =~= head_magic());
    head.push(1);
    head.push(channels);
    append_le16(&mut head, pre_skip);
    append_le32(&mut head, sample_rate);
    append_le16(&mut head, 0);
    head.push(0);
    assert(head@ =~= opus_head_spec(channels, pre_skip, sample_rate));
    head
}

/// The tag packet naming `vendor`.
pub fn opus_tags(vendor: &[u8]) -> (r: Vec<u8>)
    requires
        vendor@.len() <= u32::MAX,
    ensures
        r@ == opus_tags_spec(vendor@),
{
    let magic: [u8; 8] = [79, 112, 117, 115, 84, 97, 103, 115];
    let mut tags: Vec<u8> = Vec::new();
    append_bytes(&mut tags, &magic);
    assert(magic@ =~= tags_magic());
    append_le32(&mut tags, vendor.len() as u32);
    append_bytes(&mut tags, vendor);
    append_le32(&mut tags, 0);
    assert(tags@ =~= opus_tags_spec(vendor@));
    tags
}

proof fn lemma_frame_count(n: int, fs: int)
    requires
        n >= 0,
        fs > 0,
    ensures
        frame_count(n, fs) >= 0,
        frame_count(n, fs) * fs >= n,
        frame_count(n, fs) * fs < n + fs,
{
    let q = (n + fs - 1) / fs;
    let r = (n + fs - 1) % fs;
    lemma_fundamental_div_mod(n + fs - 1, fs);
    lemma_mod_pos_bound(n + fs - 1, fs);
    assert(q * fs == fs * q) by (nonlinear_arith);
    assert(q >= 0) by (nonlinear_arith)
        requires
            fs * q + r == n + fs - 1,
            0 <= r < fs,
            n >= 0,
            fs > 0,
    ;
}

/// `samples` cut into frames of `frame_size`, the last one completed with
/// `silence`; as many frames as the ceiling of `samples.len() / frame_size`.
pub fn split_frames<T: Copy>(samples: &[T], frame_size: usize, silence: T) -> (r: Vec<Vec<T>>)
    requires
        frame_size > 0,
    ensures
        views(r@) == frames_spec(samples@, frame_size as int, silence),
{
    let n = samples.len();
    let ghost fs = frame_size as int;
    let ghost want = frames_spec(samples@, fs, silence);
    let ghost count = frame_count(n as int, fs);
    proof {
        lemma_frame_count(n as int, fs);
    }
    let mut frames: Vec<Vec<T>> = Vec::new();
    let mut base: usize = 0;
    let ghost mut i: int = 0;
    proof {
        if n == 0 {
            assert(count == 0) by (nonlinear_arith)
                requires
                    count * fs < fs,
                    count >= 0,
                    fs > 0,
            ;
        }
        assert(views(frames@) =~= want.subrange(0, 0));
    }
    while base < n
        invariant
            n == samples@.len(),
            fs == frame_size,
            fs > 0,
            want == frames_spec(samples@, fs, silence),
            count == frame_count(n as int, fs),
            count * fs >= n,
            count * fs < n + fs,
            base <= n,
            0 <= i <= count,
            base < n ==> base == i * fs && i < count,
            base == n ==> i == count,
            views(frames@) == want.subrange(0, i),
        decreases n - base,
    {
        let rest = n - base;
        let mut frame: Vec<T> = Vec::with_capacity(frame_size);
        let mut k: usize = 0;
        while k < frame_size
            invariant
                n == samples@.len(),
                rest == n - base,
                k <= frame_size,
                frame@ =~= Seq::new(
                    k as nat,
                    |j: int| if j < rest { samples@[base + j] } else { silence },
                ),
            decreases frame_size - k,
        {
            if k < rest {
                frame.push(samples[base + k]);
            } else {
                frame.push(silence);
            }
            k = k + 1;
        }
        let ghost prev = frames@;
        proof {
            assert(frame@ =~= want[i]);
        }
        frames.push(frame);
        proof {
            let now = views(frames@);
            assert(views(prev).len() == prev.len());
            assert(want.len() == count);
            assert(prev.len() == i);
            assert forall|j: int| 0 <= j < i + 1 implies #[trigger] now[j]
                == want.subrange(0, i + 1)[j] by {
                if j < i {
                    assert(frames@[j] == prev[j]);
                    assert(views(prev)[j] == want.subrange(0, i)[j]);
                }
            }
            assert(views(frames@) =~= want.subrange(0, i + 1));
        }
        if rest <= frame_size {
            proof {
                assert((i + 1) * fs == i * fs + fs) by (nonlinear_arith);
                assert(i + 1 == count) by (nonlinear_arith)
                    requires
                        count * fs >= n,
                        count * fs < n + fs,
                        i * fs < n,
                        (i + 1) * fs >= n,
                        fs > 0,
                ;
            }
            base = n;
        } else {
            proof {
                assert((i + 1) * fs == i * fs + fs) by (nonlinear_arith);
                assert(i + 1 < count) by (nonlinear_arith)
                    requires
                        count * fs >= n,
                        (i + 1) * fs < n,
                        fs > 0,
                ;
            }
            base = base + frame_size;
        }
        proof {
            i = i + 1;
        }
    }
    proof {
        assert(want.subrange(0, i) =~= want);
    }
    frames
}

/// The Ogg stream of the encoded `frames`: the header packet, the tag
/// packet, then one packet per frame, the last of which ends the stream.
/// Always succeeds: the writer works into memory.
pub fn mux_opus(encoded: &Vec<Vec<u8>>) -> (r: Result<Vec<u8>, AudioError>)
    requires
        encoded@.len() * GRANULE_PER_FRAME <= u64::MAX,
    ensures
        r is Ok,
        match r {
            Ok(b) => b@ == ogg_pages(opus_packets(views(encoded@))),
            Err(e) => e == AudioError::EncodeError,
        },
{
    let ghost want = opus_packets(views(encoded@));
    let mut w = new_writer();
    let head = opus_head(OUTPUT_CHANNELS, PRE_SKIP, OUTPUT_SAMPLE_RATE);
    match write_packet(&mut w, head, STREAM_SERIAL, PacketEnd::EndPage, 0) {
        Ok(()) => {},
        Err(_) => {
            return Err(AudioError::EncodeError);
        },
    }
    let vendor: [u8; 6] = [112, 108, 117, 101, 108, 121];
    assert(vendor@ =~= vendor_spec());
    let tags = opus_tags(&vendor);
    match write_packet(&mut w, tags, STREAM_SERIAL, PacketEnd::EndPage, 0) {
        Ok(()) => {},
        Err(_) => {
            return Err(AudioError::EncodeError);
        },
    }
    let n = encoded.len();
    assert(packets_written(w) =~= want.subrange(0, 2));
    let mut granule: u64 = 0;
    let mut i: usize = 0;
    while i < n
        invariant
            n == encoded@.len(),
            n * GRANULE_PER_FRAME <= u64::MAX,
            want == opus_packets(views(encoded@)),
            i <= n,
            granule == i * GRANULE_PER_FRAME,
            packets_written(w) == want.subrange(0, 2 + i),
        decreases n - i,
    {
        let mut data: Vec<u8> = Vec::new();
        append_bytes(&mut data, encoded[i].as_slice());
        assert((i + 1) * GRANULE_PER_FRAME <= n * GRANULE_PER_FRAME) by (nonlinear_arith)
            requires
                i + 1 <= n,
        ;
        granule = granule + GRANULE_PER_FRAME;
        let end = if i == n - 1 {
            PacketEnd::EndStream
        } else {
            PacketEnd::Normal
        };
        match write_packet(&mut w, data, STREAM_SERIAL, end, granule) {
            Ok(()) => {},
            Err(_) => {
                return Err(AudioError::EncodeError);
            },
        }
        assert(views(encoded@)[i as int] == encoded@[i as int]@);
        assert(packets_written(w) =~= want.subrange(0, 2 + i + 1));
        i = i + 1;
    }
    assert(want.subrange(0, 2 + n) =~= want);
    Ok(into_bytes(w))
}

/// The Ogg stream of the encoded `frames`, as base64 text for transport.
/// Always succeeds.
pub fn opus_ogg_base64(encoded: &Vec<Vec<u8>>) -> (r: Result<String, AudioError>)
    requires
        encoded@.len() * GRANULE_PER_FRAME <= u64::MAX,
    ensures
        r is Ok,
        match r {
            Ok(t) => t@ == base64_spec(ogg_pages(opus_packets(views(encoded@)))).map_values(
                |c: u8| c as char,
            ),
            Err(e) => e == AudioError::EncodeError,
        },
{
    match mux_opus(encoded) {
        Ok(bytes) => Ok(base64_encode(bytes.as_slice())),
        Err(e) => Err(e),
    }
}

/// The framing of the stream for `samples` cut into frames and encoded one
/// packet per frame: one header packet and one tag packet, each ending its
/// page; then the ceiling of `samples.len() / FRAME_SIZE` audio packets; only
/// the last packet ends the stream, and its granule position is the frame
/// count times `GRANULE_PER_FRAME`. The header and tag packets carry granule
/// position 0 and audio packet `i` carries `(i + 1) * GRANULE_PER_FRAME`.
pub proof fn lemma_packet_framing<T>(samples: Seq<T>, silence: T, encoded: Seq<Seq<u8>>)
    requires
        encoded.len() == frames_spec(samples, FRAME_SIZE as int, silence).len(),
        encoded.len() > 0,
        encoded.len() * GRANULE_PER_FRAME <= u64::MAX,
    ensures
        ({
            let p = opus_packets(encoded);
            let last = p.len() - 1;
            &&& p.len() == 2 + (samples.len() + FRAME_SIZE - 1) / (FRAME_SIZE as int)
            &&& p[0].0 == opus_head_spec(OUTPUT_CHANNELS, PRE_SKIP, OUTPUT_SAMPLE_RATE)
            &&& p[1].0 == opus_tags_spec(vendor_spec())
            &&& p[0].2 == PacketEnd::EndPage && p[1].2 == PacketEnd::EndPage
            &&& forall|k: int| 2 <= k < p.len() ==> #[trigger] p[k].0 == encoded[k - 2]
            &&& forall|k: int| 2 <= k < last ==> #[trigger] p[k].2 == PacketEnd::Normal
            &&& p[last].2 == PacketEnd::EndStream
            &&& p[last].3 == encoded.len() * GRANULE_PER_FRAME
            &&& p[0].3 == 0 && p[1].3 == 0
            &&& forall|k: int| 2 <= k < p.len() ==> #[trigger] p[k].3 == (k - 1) * GRANULE_PER_FRAME
            &&& forall|k: int| 0 <= k < p.len() ==> #[trigger] p[k].1 == STREAM_SERIAL
        }),
{
}

} // verus!
