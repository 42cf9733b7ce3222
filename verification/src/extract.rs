//! Extraction of the sensor payload from a raw link-layer frame.
//!
//! A frame is a 14-byte link-layer header, an IP header whose length in
//! four-byte words is the low nibble of its first byte and whose third and
//! fourth bytes hold the length of the whole IP packet, an 8-byte transport
//! header, and the payload.

use vstd::prelude::*;
use vstd::slice::slice_subrange;
use crate::packet::DecodeError;

verus! {

/// Length of the link-layer header.
pub const LINK_HEADER_LEN: usize = 14;

/// Length of the transport header.
pub const TRANSPORT_HEADER_LEN: usize = 8;

/// The length of the IP header that starts a packet, in bytes.
pub open spec fn ip_header_len(frame: Seq<u8>) -> int {
    4 * (frame[LINK_HEADER_LEN as int] as int % 16)
}

/// The length of the whole IP packet as its header states it, in bytes.
pub open spec fn ip_total_len(frame: Seq<u8>) -> int {
    256 * (frame[LINK_HEADER_LEN + 2] as int) + frame[LINK_HEADER_LEN + 3] as int
}

/// Whether a frame holds every field that its headers announce: the length
/// fields themselves, an IP packet that ends within the frame, and room in
/// it for the IP header and the transport header.
pub open spec fn frame_complete(frame: Seq<u8>) -> bool {
    &&& frame.len() >= LINK_HEADER_LEN + 4
    &&& LINK_HEADER_LEN + ip_total_len(frame) <= frame.len()
    &&& ip_header_len(frame) + TRANSPORT_HEADER_LEN <= ip_total_len(frame)
}

/// The payload of a complete frame: what follows the three headers, up to
/// the end of the IP packet.
pub open spec fn frame_payload(frame: Seq<u8>) -> Seq<u8> {
    frame.subrange(
        LINK_HEADER_LEN + ip_header_len(frame) + TRANSPORT_HEADER_LEN,
        LINK_HEADER_LEN + ip_total_len(frame),
    )
}

/// Strips the link-layer, IP and transport headers from a frame.
///
/// Every offset is checked against the frame: a frame that ends before a
/// field it announces is refused.
pub fn extract_payload(frame: &[u8]) -> (payload: Result<&[u8], DecodeError>)
    ensures
        frame_complete(frame@) ==> payload is Ok && payload->Ok_0@ == frame_payload(frame@),
        !frame_complete(frame@) ==> payload == Err::<&[u8], _>(DecodeError::TruncatedFrame),
{
    if frame.len() < LINK_HEADER_LEN + 4 {
        return Err(DecodeError::TruncatedFrame);
    }
    let first: u8 = frame[LINK_HEADER_LEN];
    let words: u8 = first & 15;
    assert(words == first % 16) by (bit_vector)
        requires
            words == first & 15,
    ;
    let header_len: usize = 4 * (words as usize);
    let total_len: usize = 256 * (frame[LINK_HEADER_LEN + 2] as usize) + (frame[LINK_HEADER_LEN
        + 3] as usize);
    if LINK_HEADER_LEN + total_len > frame.len() {
        return Err(DecodeError::TruncatedFrame);
    }
    if header_len + TRANSPORT_HEADER_LEN > total_len {
        return Err(DecodeError::TruncatedFrame);
    }
    Ok(
        slice_subrange(
            frame,
            LINK_HEADER_LEN + header_len + TRANSPORT_HEADER_LEN,
            LINK_HEADER_LEN + total_len,
        ),
    )
}

} // verus!
