use sparksdr_core::frame::{
    parse_frame, RawFrame, AUDIO_FRAME, FRAME_HEADER_BYTES, SPECTRUM_FRAME, SPECTRUM_FRAME_BYTES,
    SPECTRUM_HEADER_BYTES,
};

fn spectrum_frame(receiver: u32, start: f64, stop: f64, levels: &[f32]) -> Vec<u8> {
    let mut bytes = vec![2u8];
    bytes.extend_from_slice(&receiver.to_be_bytes());
    bytes.extend_from_slice(&start.to_le_bytes());
    bytes.extend_from_slice(&stop.to_le_bytes());
    for level in levels {
        bytes.extend_from_slice(&level.to_le_bytes());
    }
    bytes
}

#[test]
fn layout_of_the_frames() {
    assert_eq!(AUDIO_FRAME, 1);
    assert_eq!(SPECTRUM_FRAME, 2);
    assert_eq!(FRAME_HEADER_BYTES, 1 + 4);
    assert_eq!(SPECTRUM_HEADER_BYTES, 1 + 4 + 8 + 8);
    assert_eq!(SPECTRUM_FRAME_BYTES, SPECTRUM_HEADER_BYTES + 4 * 2048);
}

#[test]
fn short_frames_are_truncated() {
    assert_eq!(parse_frame(&[]), RawFrame::Truncated);
    assert_eq!(parse_frame(&[1]), RawFrame::Truncated);
    assert_eq!(parse_frame(&[2, 0, 0, 0]), RawFrame::Truncated);
    assert_eq!(parse_frame(&[9, 0, 0, 0]), RawFrame::Truncated);
}

#[test]
fn audio_chunk() {
    assert_eq!(
        parse_frame(&[1, 0, 0, 1, 2, 0xff, 0xfe]),
        RawFrame::Audio { receiver_id: 258, payload_offset: 5 }
    );
    assert_eq!(
        parse_frame(&[1, 0xff, 0xff, 0xff, 0xff]),
        RawFrame::Audio { receiver_id: u32::MAX, payload_offset: 5 }
    );
    assert_eq!(
        parse_frame(&[1, 0x12, 0x34, 0x56, 0x78]),
        RawFrame::Audio { receiver_id: 0x1234_5678, payload_offset: 5 }
    );
}

#[test]
fn unknown_type() {
    assert_eq!(parse_frame(&[0, 0, 0, 0, 0]), RawFrame::Unsupported(0));
    assert_eq!(parse_frame(&[3, 0, 0, 0, 0, 1, 2, 3]), RawFrame::Unsupported(3));
    assert_eq!(parse_frame(&[255, 0, 0, 0, 0]), RawFrame::Unsupported(255));
}

#[test]
fn spectrum_frame_of_the_wrong_length() {
    assert_eq!(parse_frame(&[2, 0, 0, 0, 1]), RawFrame::Malformed);
    let levels = vec![0.0f32; 2047];
    assert_eq!(parse_frame(&spectrum_frame(1, 0.0, 1.0, &levels)), RawFrame::Malformed);
    let levels = vec![0.0f32; 2049];
    assert_eq!(parse_frame(&spectrum_frame(1, 0.0, 1.0, &levels)), RawFrame::Malformed);
}

#[test]
fn spectrum_frame_hands_out_the_bit_patterns() {
    let mut levels = vec![-120.5f32; 2048];
    levels[0] = 0.0;
    levels[1] = -1.0;
    levels[2047] = 42.25;
    let bytes = spectrum_frame(7, 14_074_000.5, 14_077_000.0, &levels);
    assert_eq!(bytes.len(), SPECTRUM_FRAME_BYTES);
    match parse_frame(&bytes) {
        RawFrame::Spectrum { receiver_id, start_bits, stop_bits, bin_bits } => {
            assert_eq!(receiver_id, 7);
            assert_eq!(f64::from_bits(start_bits), 14_074_000.5);
            assert_eq!(f64::from_bits(stop_bits), 14_077_000.0);
            assert_eq!(bin_bits.len(), 2048);
            let read: Vec<f32> = bin_bits.iter().map(|b| f32::from_bits(*b)).collect();
            assert_eq!(read, levels);
        }
        other => panic!("unexpected frame {:?}", other),
    }
}

#[test]
fn spectrum_frame_byte_order() {
    let mut bytes = vec![0u8; SPECTRUM_FRAME_BYTES];
    bytes[0] = 2;
    bytes[1..5].copy_from_slice(&[0x01, 0x02, 0x03, 0x04]);
    bytes[5..13].copy_from_slice(&[1, 2, 3, 4, 5, 6, 7, 8]);
    bytes[13..21].copy_from_slice(&[0xff; 8]);
    bytes[21..25].copy_from_slice(&[0x78, 0x56, 0x34, 0x12]);
    match parse_frame(&bytes) {
        RawFrame::Spectrum { receiver_id, start_bits, stop_bits, bin_bits } => {
            assert_eq!(receiver_id, 0x0102_0304);
            assert_eq!(start_bits, 0x0807_0605_0403_0201);
            assert_eq!(stop_bits, u64::MAX);
            assert_eq!(bin_bits[0], 0x1234_5678);
            assert_eq!(bin_bits[1], 0);
        }
        other => panic!("unexpected frame {:?}", other),
    }
}
