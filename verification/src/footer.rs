//! The frame trailer: a 16-bit checksum over header and payload, then the
//! fixed end marker.

use vstd::prelude::*;

use crate::bytebuf::{bm_bytes, bm_get, bm_new, bm_put_u8, bm_put_u16};
use crate::checksum::{checksum_of, compute_checksum};
use crate::enums::DecodeError;
use crate::{spec_be_u16, spec_u16_be, ETX, FOOTER_LEN};

verus! {

/// The frame trailer. The end marker is not stored: every encoded footer
/// ends with the fixed [`ETX`] byte, and decode rejects a frame without it.
#[derive(Debug, Clone, Copy, PartialEq, Eq, Structural)]
pub struct Footer {
    /// Checksum over the header and payload bytes of the frame, patched in
    /// when the full frame is assembled.
    pub crc: u16,
}

/// The 3 bytes a footer writes: the checksum big-endian, then the end
/// marker.
pub open spec fn spec_footer_bytes(f: Footer) -> Seq<u8> {
    spec_u16_be(f.crc) + seq![ETX]
}

/// What validating the trailer of a frame yields, where `body_len` is the
/// length of the header plus payload: the transmitted checksum must equal
/// the one recomputed over those bytes, and the end marker must close the
/// frame.
pub open spec fn spec_parse_footer(s: Seq<u8>, body_len: int) -> Result<Footer, DecodeError>
    recommends
        0 <= body_len,
        body_len + FOOTER_LEN <= s.len(),
{
    let stored = spec_be_u16(s[body_len], s[body_len + 1]);
    if stored != checksum_of(s.take(body_len)) {
        Err(DecodeError::ChecksumError)
    } else if s[body_len + 2] != ETX {
        Err(DecodeError::FramingError)
    } else {
        Ok(Footer { crc: stored })
    }
}

impl Footer {
    /// A footer whose checksum is not yet computed.
    pub fn new() -> (r: Self)
        ensures
            r.crc == 0,
    {
        Footer { crc: 0 }
    }

    /// Writes the checksum big-endian, then the end marker.
    pub fn encode(&self) -> (r: bytes::BytesMut)
        ensures
            bm_bytes(r) == spec_footer_bytes(*self),
            bm_bytes(r).len() == FOOTER_LEN,
    {
        let mut dst = bm_new();
        bm_put_u16(&mut dst, self.crc);
        bm_put_u8(&mut dst, ETX);
        proof {
            assert(bm_bytes(dst) =~= spec_footer_bytes(*self));
        }
        dst
    }

    /// Recomputes the checksum over the first `body_len` bytes of the
    /// frame, compares it with the transmitted one, and verifies the end
    /// marker.
    pub fn decode(src: &bytes::BytesMut, body_len: usize) -> (r: Result<Footer, DecodeError>)
        requires
            body_len + FOOTER_LEN <= bm_bytes(*src).len(),
            body_len + FOOTER_LEN <= usize::MAX,
        ensures
            match (r, spec_parse_footer(bm_bytes(*src), body_len as int)) {
                (Ok(f), Ok(mf)) => f == mf,
                (Err(e), Err(me)) => e == me,
                _ => false,
            },
    {
        let stored = crate::utils::read_u16_be(src, body_len);
        let computed = compute_checksum(src, body_len);
        if stored != computed {
            return Err(DecodeError::ChecksumError);
        }
        if bm_get(src, body_len + 2) != ETX {
            return Err(DecodeError::FramingError);
        }
        Ok(Footer { crc: stored })
    }
}

/// A footer carrying the checksum of the body it follows parses back to
/// itself once appended after that body.
pub proof fn lemma_footer_round_trip(body: Seq<u8>, f: Footer)
    requires
        f.crc == checksum_of(body),
    ensures
        spec_parse_footer(body + spec_footer_bytes(f), body.len() as int) == Ok::<
            Footer,
            DecodeError,
        >(f),
{
    let s = body + spec_footer_bytes(f);
    crate::lemma_u16_be_round_trip(f.crc);
    assert(s.take(body.len() as int) =~= body);
    assert(s[body.len() as int] == spec_u16_be(f.crc)[0]);
    assert(s[body.len() as int + 1] == spec_u16_be(f.crc)[1]);
    assert(s[body.len() as int + 2] == ETX);
}

} // verus!
