//! The fixed-layout 18-byte frame preamble: start marker, message length,
//! sequence id, return-sequence id, message-type tag, timestamp, and
//! instrument id, every integer big-endian.

use vstd::prelude::*;

use crate::bytebuf::{bm_bytes, bm_get, bm_new, bm_put_slice, bm_put_u8, bm_put_u16};
use crate::enums::{DecodeError, MessageType};
use crate::utils::read_u16_be;
use crate::{spec_be_u16, spec_u16_be, HEADER_LEN, STX};

verus! {

/// The frame preamble. The start marker is not stored: every encoded
/// header begins with the fixed [`STX`] byte, and decode rejects a frame
/// without it. The timestamp is an opaque 8-byte field, zero until a
/// sender fills it.
#[derive(Debug, Clone, Copy)]
pub struct Header {
    /// Total length of the frame this header opens, patched in when the
    /// full frame is assembled.
    pub message_length: u16,
    /// Assigned by the sender of a request; 0 until assigned.
    pub sequence_id: u16,
    /// Echoes the sequence id of the message being answered; 0 for
    /// unsolicited messages.
    pub return_sequence_id: u16,
    /// The payload variant's tag.
    pub message_type: MessageType,
    /// Opaque 8-byte timestamp field.
    pub time_stamp: [u8; 8],
    /// Identifies the instrument spoken to.
    pub instrument_id: u8,
}

/// Mathematical image of a header: the timestamp as a plain sequence.
#[verifier::ext_equal]
pub ghost struct HeaderModel {
    pub message_length: u16,
    pub sequence_id: u16,
    pub return_sequence_id: u16,
    pub message_type: MessageType,
    pub time_stamp: Seq<u8>,
    pub instrument_id: u8,
}

impl View for Header {
    type V = HeaderModel;

    open spec fn view(&self) -> HeaderModel {
        HeaderModel {
            message_length: self.message_length,
            sequence_id: self.sequence_id,
            return_sequence_id: self.return_sequence_id,
            message_type: self.message_type,
            time_stamp: self.time_stamp@,
            instrument_id: self.instrument_id,
        }
    }
}

impl HeaderModel {
    /// A header model that can stand at the head of a frame.
    pub open spec fn wf(self) -> bool {
        self.time_stamp.len() == 8
    }
}

/// The 18 bytes a header writes, in wire order.
pub open spec fn spec_header_bytes(h: HeaderModel) -> Seq<u8> {
    seq![STX] + spec_u16_be(h.message_length) + spec_u16_be(h.sequence_id) + spec_u16_be(
        h.return_sequence_id,
    ) + spec_u16_be(h.message_type.value()) + h.time_stamp + seq![h.instrument_id]
}

/// What decoding the first 18 bytes of a buffer yields: the header, or the
/// first framing fault found. The start marker is verified before anything
/// else: without it the frame boundary is lost, however many bytes there
/// are, and the caller must resynchronize rather than wait for more. Only
/// an empty buffer, which has no byte to verify, and a truncated header
/// behind a good marker are reported as too short. Then the tag is mapped
/// through the registry.
pub open spec fn spec_parse_header(s: Seq<u8>) -> Result<HeaderModel, DecodeError> {
    if s.len() == 0 {
        Err(DecodeError::BufferTooShort)
    } else if s[0] != STX {
        Err(DecodeError::FramingError)
    } else if s.len() < HEADER_LEN {
        Err(DecodeError::BufferTooShort)
    } else {
        match MessageType::spec_from_u16(spec_be_u16(s[7], s[8])) {
            None => Err(DecodeError::UnknownMessageType),
            Some(t) => Ok(
                HeaderModel {
                    message_length: spec_be_u16(s[1], s[2]),
                    sequence_id: spec_be_u16(s[3], s[4]),
                    return_sequence_id: spec_be_u16(s[5], s[6]),
                    message_type: t,
                    time_stamp: s.subrange(9, 17),
                    instrument_id: s[17],
                },
            ),
        }
    }
}

impl Header {
    /// A header for a fresh message: sequence id and message length stay 0
    /// until assigned, the timestamp stays opaque zero bytes.
    pub fn new(message_type: MessageType, return_sequence_id: u16, instrument_id: u8) -> (r: Self)
        ensures
            r@ == (HeaderModel {
                message_length: 0,
                sequence_id: 0,
                return_sequence_id,
                message_type,
                time_stamp: Seq::new(8, |i: int| 0u8),
                instrument_id,
            }),
    {
        let r = Header {
            message_length: 0,
            sequence_id: 0,
            return_sequence_id,
            message_type,
            time_stamp: [0u8; 8],
            instrument_id,
        };
        proof {
            assert(r.time_stamp@ =~= Seq::new(8, |i: int| 0u8));
        }
        r
    }

    /// Writes the header's 18 bytes in wire order.
    pub fn encode(&self) -> (r: bytes::BytesMut)
        ensures
            bm_bytes(r) == spec_header_bytes(self@),
            bm_bytes(r).len() == HEADER_LEN,
    {
        let mut dst = bm_new();
        bm_put_u8(&mut dst, STX);
        bm_put_u16(&mut dst, self.message_length);
        bm_put_u16(&mut dst, self.sequence_id);
        bm_put_u16(&mut dst, self.return_sequence_id);
        bm_put_u16(&mut dst, self.message_type.as_u16());
        bm_put_slice(&mut dst, self.time_stamp.as_slice());
        bm_put_u8(&mut dst, self.instrument_id);
        proof {
            assert(bm_bytes(dst) =~= spec_header_bytes(self@));
        }
        dst
    }

    /// Verifies the start marker, then reads the header fields at their
    /// fixed offsets, mapping the tag through the registry.
    pub fn decode(src: &bytes::BytesMut) -> (r: Result<Header, DecodeError>)
        ensures
            match (r, spec_parse_header(bm_bytes(*src))) {
                (Ok(h), Ok(m)) => h@ == m && m.wf(),
                (Err(e), Err(me)) => e == me,
                _ => false,
            },
    {
        let n = crate::bytebuf::bm_len(src);
        if n == 0 {
            return Err(DecodeError::BufferTooShort);
        }
        if bm_get(src, 0) != STX {
            return Err(DecodeError::FramingError);
        }
        if n < HEADER_LEN {
            return Err(DecodeError::BufferTooShort);
        }
        let raw_type = read_u16_be(src, 7);
        let message_type = match MessageType::try_from_u16(raw_type) {
            None => {
                return Err(DecodeError::UnknownMessageType);
            },
            Some(t) => t,
        };
        let time_stamp: [u8; 8] = [
            bm_get(src, 9),
            bm_get(src, 10),
            bm_get(src, 11),
            bm_get(src, 12),
            bm_get(src, 13),
            bm_get(src, 14),
            bm_get(src, 15),
            bm_get(src, 16),
        ];
        let h = Header {
            message_length: read_u16_be(src, 1),
            sequence_id: read_u16_be(src, 3),
            return_sequence_id: read_u16_be(src, 5),
            message_type,
            time_stamp,
            instrument_id: bm_get(src, 17),
        };
        proof {
            assert(h.time_stamp@ =~= bm_bytes(*src).subrange(9, 17));
        }
        Ok(h)
    }
}

/// Encoding a well-formed header and parsing the bytes back yields the
/// same header again, whatever follows the header in the frame.
pub proof fn lemma_header_round_trip(h: HeaderModel, rest: Seq<u8>)
    requires
        h.wf(),
    ensures
        spec_parse_header(spec_header_bytes(h) + rest) == Ok::<HeaderModel, DecodeError>(h),
{
    let s = spec_header_bytes(h) + rest;
    assert(s.len() == HEADER_LEN + rest.len());
    assert(s[0] == STX);
    crate::lemma_u16_be_round_trip(h.message_length);
    crate::lemma_u16_be_round_trip(h.sequence_id);
    crate::lemma_u16_be_round_trip(h.return_sequence_id);
    crate::lemma_u16_be_round_trip(h.message_type.value());
    assert(spec_be_u16(s[7], s[8]) == h.message_type.value());
    crate::enums::lemma_message_type_value_round_trip(h.message_type);
    assert(s.subrange(9, 17) =~= h.time_stamp);
    let parsed = spec_parse_header(s);
    assert(parsed is Ok);
    assert(parsed.unwrap() =~= h);
}

} // verus!
