//! The queue-add response payload: the interface position addressed, the
//! sample identifier echoed back, and a command status. Its payload bytes
//! start at the fixed offset right after the header.

use vstd::prelude::*;
use vstd::string::StringSliceAdditionalSpecFns;
use vstd::utf8::{encode_utf8, valid_utf8};

use crate::bytebuf::{bm_append, bm_bytes, bm_get, bm_new, bm_put_u8};
use crate::enums::{AddQueueCommandStatusValues, DecodeError, InterfacePositionIndex, MessageType};
use crate::utils::{bytes_range_to_vec, sample_id_field_length, string_from_utf8};
use crate::HEADER_LEN;

verus! {

/// Payload of a queue-add response.
#[derive(Debug)]
pub struct AddQueueResponse {
    pub interface_position_index: InterfacePositionIndex,
    pub sample_id: String,
    pub command_status: AddQueueCommandStatusValues,
}

/// Mathematical image of a queue-add response: the sample identifier as
/// its UTF-8 bytes.
#[verifier::ext_equal]
pub ghost struct ResponseModel {
    pub interface_position_index: InterfacePositionIndex,
    pub sample_id: Seq<u8>,
    pub command_status: AddQueueCommandStatusValues,
}

impl View for AddQueueResponse {
    type V = ResponseModel;

    open spec fn view(&self) -> ResponseModel {
        ResponseModel {
            interface_position_index: self.interface_position_index,
            sample_id: encode_utf8(self.sample_id@),
            command_status: self.command_status,
        }
    }
}

impl ResponseModel {
    /// A response that can travel in a frame: its sample identifier is a
    /// string's worth of bytes and fits the 1-byte length prefix.
    pub open spec fn wf(self) -> bool {
        valid_utf8(self.sample_id) && self.sample_id.len() <= 255
    }
}

/// The bytes a response payload writes: the interface position, the
/// length-prefixed sample identifier, then the command status.
pub open spec fn spec_response_bytes(m: ResponseModel) -> Seq<u8> {
    seq![m.interface_position_index.value(), m.sample_id.len() as u8] + m.sample_id
        + seq![m.command_status.value()]
}

/// What decoding a response payload at the fixed offset after the header
/// yields: the response, or the first fault found, in the order the
/// fields are read.
pub open spec fn spec_parse_response(s: Seq<u8>) -> Result<ResponseModel, DecodeError> {
    if s.len() < HEADER_LEN + 1 {
        Err(DecodeError::BufferTooShort)
    } else {
        match InterfacePositionIndex::spec_from_u8(s[HEADER_LEN as int]) {
            None => Err(DecodeError::MalformedPayload),
            Some(ipi) => {
                if s.len() < HEADER_LEN + 2 {
                    Err(DecodeError::BufferTooShort)
                } else {
                    let n = s[HEADER_LEN + 1] as int;
                    if HEADER_LEN + 3 + n > s.len() {
                        Err(DecodeError::BufferTooShort)
                    } else {
                        let sample = s.subrange(HEADER_LEN + 2, HEADER_LEN + 2 + n);
                        if !valid_utf8(sample) {
                            Err(DecodeError::MalformedPayload)
                        } else {
                            match AddQueueCommandStatusValues::spec_from_u8(
                                s[HEADER_LEN + 2 + n],
                            ) {
                                None => Err(DecodeError::MalformedPayload),
                                Some(status) => Ok(
                                    ResponseModel {
                                        interface_position_index: ipi,
                                        sample_id: sample,
                                        command_status: status,
                                    },
                                ),
                            }
                        }
                    }
                }
            },
        }
    }
}

impl AddQueueResponse {
    pub fn new(
        interface_position_index: InterfacePositionIndex,
        sample_id: String,
        command_status: AddQueueCommandStatusValues,
    ) -> (r: Self)
        ensures
            r.interface_position_index == interface_position_index,
            r.sample_id == sample_id,
            r.command_status == command_status,
    {
        AddQueueResponse { interface_position_index, sample_id, command_status }
    }

    /// Writes the response's payload bytes; fails exactly when the sample
    /// identifier does not fit its length prefix.
    pub fn encode(&self) -> (r: Result<bytes::BytesMut, DecodeError>)
        ensures
            match r {
                Ok(b) => self@.wf() && bm_bytes(b) == spec_response_bytes(self@),
                Err(e) => e == DecodeError::FrameTooLarge && !self@.wf(),
            },
    {
        proof {
            vstd::utf8::encode_utf8_valid_utf8(self.sample_id@);
        }
        let sid = self.sample_id.as_str();
        proof {
            assert(sid.spec_bytes() =~= encode_utf8(self.sample_id@));
        }
        let sid_bytes = sid.as_bytes();
        if sid_bytes.len() > 255 {
            return Err(DecodeError::FrameTooLarge);
        }
        let mut dst = bm_new();
        bm_put_u8(&mut dst, self.interface_position_index.as_u8());
        let id_field = sample_id_field_length(sid);
        bm_append(&mut dst, &id_field);
        bm_put_u8(&mut dst, self.command_status.as_u8());
        proof {
            assert(bm_bytes(dst) =~= spec_response_bytes(self@));
        }
        Ok(dst)
    }

    /// Reads a response's payload fields at their fixed offsets after the
    /// header.
    pub fn from_bytes(src: &bytes::BytesMut) -> (r: Result<AddQueueResponse, DecodeError>)
        ensures
            match (r, spec_parse_response(bm_bytes(*src))) {
                (Ok(p), Ok(m)) => p@ == m && m.wf(),
                (Err(e), Err(me)) => e == me,
                _ => false,
            },
    {
        let total = crate::bytebuf::bm_len(src);
        if total < HEADER_LEN + 1 {
            return Err(DecodeError::BufferTooShort);
        }
        let interface_position_index = match InterfacePositionIndex::try_from_u8(
            bm_get(src, HEADER_LEN),
        ) {
            None => {
                return Err(DecodeError::MalformedPayload);
            },
            Some(v) => v,
        };
        if total < HEADER_LEN + 2 {
            return Err(DecodeError::BufferTooShort);
        }
        let n = bm_get(src, HEADER_LEN + 1) as usize;
        if total < HEADER_LEN + 3 || total - (HEADER_LEN + 3) < n {
            return Err(DecodeError::BufferTooShort);
        }
        let sample_bytes = bytes_range_to_vec(src, HEADER_LEN + 2, n);
        let sample_id = match string_from_utf8(sample_bytes) {
            None => {
                return Err(DecodeError::MalformedPayload);
            },
            Some(s) => s,
        };
        let command_status = match AddQueueCommandStatusValues::try_from_u8(
            bm_get(src, HEADER_LEN + 2 + n),
        ) {
            None => {
                return Err(DecodeError::MalformedPayload);
            },
            Some(v) => v,
        };
        let resp = AddQueueResponse { interface_position_index, sample_id, command_status };
        proof {
            assert(resp@ =~= spec_parse_response(bm_bytes(*src)).unwrap());
        }
        Ok(resp)
    }

    /// The fixed tag identifying this variant.
    pub fn get_message_type(&self) -> (r: MessageType)
        ensures
            r == MessageType::AddQueueResponse,
    {
        MessageType::AddQueueResponse
    }

    /// A response answers nothing: it expects no reply of its own.
    pub fn response_message_type(&self) -> (r: Option<MessageType>)
        ensures
            r is None,
    {
        None
    }
}

/// Encoding a well-formed response payload behind an 18-byte header and
/// parsing the buffer back yields the same response again.
pub proof fn lemma_response_round_trip(m: ResponseModel, prefix: Seq<u8>, suffix: Seq<u8>)
    requires
        m.wf(),
        prefix.len() == HEADER_LEN,
    ensures
        spec_parse_response(prefix + spec_response_bytes(m) + suffix) == Ok::<
            ResponseModel,
            DecodeError,
        >(m),
{
    let s = prefix + spec_response_bytes(m) + suffix;
    let n = m.sample_id.len() as int;
    assert(s[HEADER_LEN as int] == m.interface_position_index.value());
    assert(s[HEADER_LEN + 1] == n as u8);
    assert(s.subrange(HEADER_LEN + 2, HEADER_LEN + 2 + n) =~= m.sample_id);
    assert(s[HEADER_LEN + 2 + n] == m.command_status.value());
    assert(spec_parse_response(s).unwrap() =~= m);
}

} // verus!
