use vstd::prelude::*;

use crate::error::FrameError;

verus! {

/// Value of each of the two header bytes.
pub const HEADER_BYTE: u8 = 0x59;

/// One decoded measurement.
#[derive(Debug, Clone, Copy, PartialEq, Eq, Structural)]
pub struct Frame {
    /// Distance, in centimetres.
    pub distance: u16,
    /// Strength of the returned signal.
    pub strength: u16,
    /// Integration time reported by the sensor.
    pub integration_time: u8,
}

/// Both header bytes hold the magic value.
pub open spec fn header_ok(b: Seq<u8>) -> bool {
    b[0] == HEADER_BYTE && b[1] == HEADER_BYTE
}

/// Sum of the eight bytes that the checksum covers, as a mathematical integer.
pub open spec fn byte_sum(b: Seq<u8>) -> int {
    b[0] + b[1] + b[2] + b[3] + b[4] + b[5] + b[6] + b[7]
}

/// The checksum that a frame's first eight bytes call for: their sum modulo 256.
pub open spec fn checksum_of(b: Seq<u8>) -> u8 {
    (byte_sum(b) % 256) as u8
}

/// The last byte matches the checksum of the first eight.
pub open spec fn checksum_ok(b: Seq<u8>) -> bool {
    b[8] == checksum_of(b)
}

/// A 16-bit value stored low byte first.
pub open spec fn le_u16(lo: u8, hi: u8) -> u16 {
    (lo + 256 * hi) as u16
}

/// The measurement that a frame's bytes carry.
pub open spec fn frame_of(b: Seq<u8>) -> Frame {
    Frame {
        distance: le_u16(b[2], b[3]),
        strength: le_u16(b[4], b[5]),
        integration_time: b[6],
    }
}

/// What decoding a frame's nine bytes gives: the header is checked first, then
/// the checksum, and only then are the fields read.
pub open spec fn decode_bytes<E>(b: Seq<u8>) -> Result<Frame, FrameError<E>> {
    if !header_ok(b) {
        Err(FrameError::InvalidStartFrame)
    } else if !checksum_ok(b) {
        Err(FrameError::InvalidChecksum)
    } else {
        Ok(frame_of(b))
    }
}

impl Frame {
    /// Extracts the fields of a frame whose header and checksum were checked.
    pub(crate) fn new(data: &[u8; 9]) -> (r: Frame)
        requires
            header_ok(data@),
            checksum_ok(data@),
        ensures
            r == frame_of(data@),
    {
        let d_lo = data[2];
        let d_hi = data[3];
        let s_lo = data[4];
        let s_hi = data[5];
        let distance = (d_lo as u16) | ((d_hi as u16) << 8);
        let strength = (s_lo as u16) | ((s_hi as u16) << 8);
        proof {
            lemma_le_u16_bits(d_lo, d_hi);
            lemma_le_u16_bits(s_lo, s_hi);
        }
        Frame { distance, strength, integration_time: data[6] }
    }

    /// Tells whether the buffer starts with the two header bytes.
    pub fn check_header(data: &[u8; 9]) -> (r: bool)
        ensures
            r == header_ok(data@),
    {
        data[0] == HEADER_BYTE && data[1] == HEADER_BYTE
    }

    /// Tells whether the last byte is the sum, modulo 256, of the first eight.
    pub fn validate_checksum(data: &[u8; 9]) -> (r: bool)
        ensures
            r == checksum_ok(data@),
    {
        let sum: u16 = data[0] as u16 + data[1] as u16 + data[2] as u16 + data[3] as u16
            + data[4] as u16 + data[5] as u16 + data[6] as u16 + data[7] as u16;
        (sum % 256) as u8 == data[8]
    }

    /// Validates a frame's nine bytes and, when they pass, reads the measurement.
    pub fn decode<E>(data: &[u8; 9]) -> (r: Result<Frame, FrameError<E>>)
        ensures
            r == decode_bytes::<E>(data@),
    {
        if !Frame::check_header(data) {
            return Err(FrameError::InvalidStartFrame);
        }
        if !Frame::validate_checksum(data) {
            return Err(FrameError::InvalidChecksum);
        }
        Ok(Frame::new(data))
    }
}

/// A buffer with the header and a checksum byte equal to the sum of the first
/// eight bytes modulo 256 decodes, and the frame's fields are the little-endian
/// distance and strength and the integration-time byte.
pub proof fn lemma_valid_frame_decodes<E>(b: Seq<u8>)
    requires
        b.len() == 9,
        b[0] == 0x59,
        b[1] == 0x59,
        b[8] as int == byte_sum(b) % 256,
    ensures
        decode_bytes::<E>(b) == Ok::<Frame, FrameError<E>>(
            Frame {
                distance: (b[2] as u16) | ((b[3] as u16) << 8),
                strength: (b[4] as u16) | ((b[5] as u16) << 8),
                integration_time: b[6],
            },
        ),
{
    lemma_le_u16_bits(b[2], b[3]);
    lemma_le_u16_bits(b[4], b[5]);
}

/// A buffer whose first or second byte is not the header byte is rejected as a
/// bad start of frame, whatever its checksum byte holds.
pub proof fn lemma_bad_header_rejected<E>(b: Seq<u8>)
    requires
        b.len() == 9,
        b[0] != 0x59 || b[1] != 0x59,
    ensures
        decode_bytes::<E>(b) == Err::<Frame, FrameError<E>>(FrameError::InvalidStartFrame),
{
}

/// A buffer with the header whose checksum byte differs from the sum of the
/// first eight bytes modulo 256 is rejected as a bad checksum.
pub proof fn lemma_bad_checksum_rejected<E>(b: Seq<u8>)
    requires
        b.len() == 9,
        b[0] == 0x59,
        b[1] == 0x59,
        b[8] as int != byte_sum(b) % 256,
    ensures
        decode_bytes::<E>(b) == Err::<Frame, FrameError<E>>(FrameError::InvalidChecksum),
{
}

/// The checksum wraps around: eight bytes that sum to 256 call for a checksum
/// byte of zero, and with the header such a buffer decodes.
pub proof fn lemma_checksum_wraps<E>(b: Seq<u8>)
    requires
        b.len() == 9,
        byte_sum(b) == 256,
        b[8] == 0,
    ensures
        checksum_ok(b),
        header_ok(b) ==> decode_bytes::<E>(b) is Ok,
{
}

/// Combining two bytes with a shift and an or gives their little-endian value.
pub proof fn lemma_le_u16_bits(lo: u8, hi: u8)
    ensures
        (lo as u16) | ((hi as u16) << 8) == le_u16(lo, hi),
{
    let l = lo as u16;
    let h = hi as u16;
    assert(l | (h << 8) == l + 256 * h) by (bit_vector)
        requires
            l < 256,
            h < 256,
    ;
}

} // verus!
