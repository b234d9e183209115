//! Binary message framing for a laboratory analyzer: a fixed-layout header,
//! a closed set of type-tagged payload variants, and a checksum-protected
//! footer, with request/response correlation by sequence ids.
//!
//! A frame is laid out as header (18 bytes), payload (variant-specific),
//! checksum over header and payload (2 bytes, big-endian), end marker
//! (1 byte). Encoding and decoding are exact inverses for every payload
//! whose fields are within their valid ranges; see `message`.

pub mod add_queue_request;
pub mod add_queue_response;
pub mod bytebuf;
pub mod footer;
pub mod header;
pub mod message;
pub mod payload;
pub mod urap_tube;
pub mod utils;
pub mod checksum;
pub mod enums;

use vstd::prelude::*;

verus! {

/// Start-of-frame marker byte.
pub const STX: u8 = 0x02;

/// End-of-frame marker byte.
pub const ETX: u8 = 0x03;

/// Number of bytes in an encoded header.
pub const HEADER_LEN: usize = 18;

/// Number of bytes in an encoded footer: a 16-bit checksum and the end marker.
pub const FOOTER_LEN: usize = 3;

/// Big-endian bytes of a 16-bit value: high byte first.
pub open spec fn spec_u16_be(v: u16) -> Seq<u8> {
    seq![(v / 256) as u8, (v % 256) as u8]
}

/// The 16-bit value encoded big-endian by a high and a low byte.
pub open spec fn spec_be_u16(hi: u8, lo: u8) -> u16 {
    (hi * 256 + lo) as u16
}

/// Writing a 16-bit value big-endian and reading the two bytes back gives
/// the value again.
pub proof fn lemma_u16_be_round_trip(v: u16)
    ensures
        spec_be_u16(spec_u16_be(v)[0], spec_u16_be(v)[1]) == v,
{
}

} // verus!
