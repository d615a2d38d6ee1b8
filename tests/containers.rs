use system_audio::opus_stream::{
    mux_opus, opus_head, opus_ogg_base64, opus_tags, split_frames, FRAME_SIZE, GRANULE_PER_FRAME,
    OUTPUT_CHANNELS, OUTPUT_SAMPLE_RATE, PRE_SKIP,
};
use system_audio::wav::{encode_wav, wav_base64};

struct Page {
    flags: u8,
    granule: u64,
    packets: Vec<Vec<u8>>,
}

fn read_pages(bytes: &[u8]) -> Vec<Page> {
    let mut pages = Vec::new();
    let mut at = 0;
    let mut pending: Vec<u8> = Vec::new();
    while at < bytes.len() {
        assert_eq!(&bytes[at..at + 4], b"OggS");
        let flags = bytes[at + 5];
        let mut g = [0u8; 8];
        g.copy_from_slice(&bytes[at + 6..at + 14]);
        let granule = u64::from_le_bytes(g);
        let segments = bytes[at + 26] as usize;
        let lacing = &bytes[at + 27..at + 27 + segments];
        let mut body = at + 27 + segments;
        let mut packets = Vec::new();
        for &l in lacing {
            pending.extend_from_slice(&bytes[body..body + l as usize]);
            body += l as usize;
            if l < 255 {
                packets.push(std::mem::take(&mut pending));
            }
        }
        pages.push(Page { flags, granule, packets });
        at = body;
    }
    pages
}

#[test]
fn opus_head_layout() {
    let head = opus_head(OUTPUT_CHANNELS, PRE_SKIP, OUTPUT_SAMPLE_RATE);
    assert_eq!(
        head,
        vec![79, 112, 117, 115, 72, 101, 97, 100, 1, 1, 0x38, 0x01, 0x80, 0x3e, 0, 0, 0, 0, 0]
    );
    assert_eq!(head.len(), 19);
}

#[test]
fn opus_tags_layout() {
    let tags = opus_tags(b"pluely");
    let mut want = b"OpusTags".to_vec();
    want.extend_from_slice(&[6, 0, 0, 0]);
    want.extend_from_slice(b"pluely");
    want.extend_from_slice(&[0, 0, 0, 0]);
    assert_eq!(tags, want);
}

#[test]
fn split_frames_pads_last_frame_with_silence() {
    let frames = split_frames(&[1, 2, 3, 4, 5, 6, 7], 3, 0);
    assert_eq!(frames, vec![vec![1, 2, 3], vec![4, 5, 6], vec![7, 0, 0]]);
    let exact = split_frames(&[1.0f32, 2.0, 3.0, 4.0], 2, 0.0);
    assert_eq!(exact, vec![vec![1.0, 2.0], vec![3.0, 4.0]]);
    let none: Vec<Vec<u8>> = split_frames(&[], 4, 0);
    assert!(none.is_empty());
}

#[test]
fn split_frames_count_is_ceiling() {
    let mono = vec![0.25f32; 2 * FRAME_SIZE + 1];
    let frames = split_frames(&mono, FRAME_SIZE, 0.0);
    assert_eq!(frames.len(), 3);
    assert_eq!(frames[2][0], 0.25);
    assert!(frames[2][1..].iter().all(|&x| x == 0.0));
    assert!(frames.iter().all(|f| f.len() == FRAME_SIZE));
}

#[test]
fn ogg_stream_packet_framing() {
    let encoded = vec![vec![1u8, 2, 3], vec![4u8], vec![5u8, 6]];
    let bytes = mux_opus(&encoded).unwrap();
    let pages = read_pages(&bytes);
    assert_eq!(pages.len(), 3);
    assert_eq!(pages[0].flags, 0x02);
    assert_eq!(pages[0].granule, 0);
    assert_eq!(pages[0].packets, vec![opus_head(1, 312, 16000)]);
    assert_eq!(pages[1].flags, 0x00);
    assert_eq!(pages[1].packets, vec![opus_tags(b"pluely")]);
    assert_eq!(pages[2].flags, 0x04);
    assert_eq!(pages[2].granule, 3 * GRANULE_PER_FRAME);
    assert_eq!(pages[2].packets, encoded);
}

#[test]
fn ogg_stream_single_frame_ends_stream() {
    let encoded = vec![vec![9u8; 300]];
    let bytes = mux_opus(&encoded).unwrap();
    let pages = read_pages(&bytes);
    assert_eq!(pages.len(), 3);
    assert_eq!(pages[2].flags & 0x04, 0x04);
    assert_eq!(pages[2].granule, 960);
    assert_eq!(pages[2].packets, encoded);
}

#[test]
fn ogg_stream_as_base64() {
    let encoded = vec![vec![1u8, 2, 3]];
    let text = opus_ogg_base64(&encoded).unwrap();
    assert!(text.starts_with("T2dnUw"));
    assert_eq!(text.len() % 4, 0);
    assert!(text.len() > 4 * (mux_opus(&encoded).unwrap().len() / 3));
}

#[test]
fn wav_layout_and_samples() {
    let bytes = encode_wav(&[1, -1, 32767, -32768], 16000, 1).unwrap();
    assert_eq!(
        bytes,
        vec![
            82, 73, 70, 70, 44, 0, 0, 0, 87, 65, 86, 69, 102, 109, 116, 32, 16, 0, 0, 0, 1, 0, 1,
            0, 128, 62, 0, 0, 0, 125, 0, 0, 2, 0, 16, 0, 100, 97, 116, 97, 8, 0, 0, 0, 1, 0, 255,
            255, 255, 127, 0, 128
        ]
    );
}

#[test]
fn wav_round_trip_reads_back_samples() {
    let samples: Vec<i16> = vec![0, 100, -100, 12345, -32768, 32767];
    let bytes = encode_wav(&samples, 48000, 2).unwrap();
    assert_eq!(bytes.len(), 44 + 2 * samples.len());
    let data_len = u32::from_le_bytes([bytes[40], bytes[41], bytes[42], bytes[43]]);
    assert_eq!(data_len as usize, 2 * samples.len());
    let read: Vec<i16> =
        bytes[44..].chunks(2).map(|c| i16::from_le_bytes([c[0], c[1]])).collect();
    assert_eq!(read, samples);
    let byte_rate = u32::from_le_bytes([bytes[28], bytes[29], bytes[30], bytes[31]]);
    assert_eq!(byte_rate, 192_000);
}

#[test]
fn wav_as_base64() {
    assert_eq!(
        wav_base64(&[], 16000, 1),
        Ok("UklGRiQAAABXQVZFZm10IBAAAAABAAEAgD4AAAB9AAACABAAZGF0YQAAAAA=".to_string())
    );
}
