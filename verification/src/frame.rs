//! The binary frames of the channel: one byte of type, four bytes of
//! receiver id, then the payload of the type.
//!
//! Floating-point fields are handed out as their bit patterns.

use vstd::prelude::*;

verus! {

/// The type byte of an audio chunk.
pub const AUDIO_FRAME: u8 = 1;

/// The type byte of a spectrum frame.
pub const SPECTRUM_FRAME: u8 = 2;

/// Type and receiver id.
pub const FRAME_HEADER_BYTES: usize = 5;

/// The bytes that precede the levels in a spectrum frame: header and two
/// doubles.
pub const SPECTRUM_HEADER_BYTES: usize = 21;

/// The length of a spectrum frame: header, two doubles, 2048 floats.
pub const SPECTRUM_FRAME_BYTES: usize = 8213;

/// The big-endian number in the four bytes from `at`.
pub open spec fn be_u32(bytes: Seq<u8>, at: int) -> int {
    bytes[at] * 0x100_0000 + bytes[at + 1] * 0x1_0000 + bytes[at + 2] * 0x100 + bytes[at + 3]
}

/// The little-endian number in the four bytes from `at`.
pub open spec fn le_u32(bytes: Seq<u8>, at: int) -> int {
    bytes[at] + bytes[at + 1] * 0x100 + bytes[at + 2] * 0x1_0000 + bytes[at + 3] * 0x100_0000
}

/// The little-endian number in the eight bytes from `at`.
pub open spec fn le_u64(bytes: Seq<u8>, at: int) -> int {
    le_u32(bytes, at) + le_u32(bytes, at + 4) * 0x1_0000_0000
}

/// The bit patterns of the 2048 levels of a spectrum frame.
pub open spec fn bin_bits_of(bytes: Seq<u8>) -> Seq<u32> {
    Seq::new(2048, |bin: int| le_u32(bytes, 21 + 4 * bin) as u32)
}

/// A frame taken apart.
#[derive(Debug, PartialEq, Eq)]
pub enum RawFrame {
    /// The frame is shorter than its header.
    Truncated,
    /// An audio chunk; the encoded audio begins at `payload_offset`.
    Audio { receiver_id: u32, payload_offset: usize },
    /// A spectrum frame: the span as two doubles, the levels as floats.
    Spectrum { receiver_id: u32, start_bits: u64, stop_bits: u64, bin_bits: Vec<u32> },
    /// A spectrum frame of the wrong length.
    Malformed,
    /// A frame of a type that is not known.
    Unsupported(u8),
}

/// What `parse_frame` makes of `bytes`, the levels apart.
pub open spec fn frame_of(bytes: Seq<u8>, frame: RawFrame) -> bool {
    if bytes.len() < 5 {
        frame is Truncated
    } else if bytes[0] == 1 {
        frame == (RawFrame::Audio { receiver_id: be_u32(bytes, 1) as u32, payload_offset: 5 })
    } else if bytes[0] == 2 {
        if bytes.len() == 8213 {
            &&& frame is Spectrum
            &&& frame->Spectrum_receiver_id == be_u32(bytes, 1)
            &&& frame->start_bits == le_u64(bytes, 5)
            &&& frame->stop_bits == le_u64(bytes, 13)
            &&& frame->bin_bits@ == bin_bits_of(bytes)
        } else {
            frame is Malformed
        }
    } else {
        frame == RawFrame::Unsupported(bytes[0])
    }
}

fn read_be_u32(bytes: &[u8], at: usize) -> (value: u32)
    requires
        at + 4 <= bytes.len(),
    ensures
        value == be_u32(bytes@, at as int),
{
    bytes[at] as u32 * 0x100_0000 + bytes[at + 1] as u32 * 0x1_0000 + bytes[at + 2] as u32 * 0x100
        + bytes[at + 3] as u32
}

fn read_le_u32(bytes: &[u8], at: usize) -> (value: u32)
    requires
        at + 4 <= bytes.len(),
    ensures
        value == le_u32(bytes@, at as int),
{
    bytes[at] as u32 + bytes[at + 1] as u32 * 0x100 + bytes[at + 2] as u32 * 0x1_0000 + bytes[at
        + 3] as u32 * 0x100_0000
}

fn read_le_u64(bytes: &[u8], at: usize) -> (value: u64)
    requires
        at + 8 <= bytes.len(),
    ensures
        value == le_u64(bytes@, at as int),
{
    read_le_u32(bytes, at) as u64 + read_le_u32(bytes, at + 4) as u64 * 0x1_0000_0000
}

/// Takes a frame apart.
pub fn parse_frame(bytes: &[u8]) -> (frame: RawFrame)
    ensures
        frame_of(bytes@, frame),
{
    if bytes.len() < FRAME_HEADER_BYTES {
        return RawFrame::Truncated;
    }
    let kind = bytes[0];
    if kind == AUDIO_FRAME {
        RawFrame::Audio { receiver_id: read_be_u32(bytes, 1), payload_offset: FRAME_HEADER_BYTES }
    } else if kind == SPECTRUM_FRAME {
        if bytes.len() != SPECTRUM_FRAME_BYTES {
            return RawFrame::Malformed;
        }
        let mut bin_bits: Vec<u32> = Vec::new();
        let mut bin: usize = 0;
        while bin < 2048
            invariant
                bin <= 2048,
                bytes.len() == 8213,
                bin_bits@.len() == bin,
                forall|i: int| 0 <= i < bin ==> bin_bits@[i] == #[trigger] bin_bits_of(bytes@)[i],
            decreases 2048 - bin,
        {
            bin_bits.push(read_le_u32(bytes, SPECTRUM_HEADER_BYTES + 4 * bin));
            bin += 1;
        }
        assert(bin_bits@ =~= bin_bits_of(bytes@));
        RawFrame::Spectrum {
            receiver_id: read_be_u32(bytes, 1),
            start_bits: read_le_u64(bytes, 5),
            stop_bits: read_le_u64(bytes, 13),
            bin_bits,
        }
    } else {
        RawFrame::Unsupported(kind)
    }
}

} // verus!
