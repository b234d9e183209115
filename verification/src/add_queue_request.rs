//! The queue-add request payload: an interface position and the sample
//! tube to enqueue there. Its payload bytes start at the fixed offset
//! right after the header.

use vstd::prelude::*;

use crate::bytebuf::{bm_append, bm_bytes, bm_get, bm_new, bm_put_u8};
use crate::enums::{DecodeError, InterfacePositionIndex, MessageType};
use crate::urap_tube::{spec_parse_tube, spec_tube_bytes, TubeModel, UrapTube};
use crate::HEADER_LEN;

verus! {

/// Payload of a queue-add request.
#[derive(Debug)]
pub struct AddQueueRequest {
    pub interface_position_index: InterfacePositionIndex,
    pub tube: UrapTube,
}

/// Mathematical image of a queue-add request.
#[verifier::ext_equal]
pub ghost struct RequestModel {
    pub interface_position_index: InterfacePositionIndex,
    pub tube: TubeModel,
}

impl View for AddQueueRequest {
    type V = RequestModel;

    open spec fn view(&self) -> RequestModel {
        RequestModel {
            interface_position_index: self.interface_position_index,
            tube: self.tube@,
        }
    }
}

impl RequestModel {
    /// A request that can travel in a frame: its tube is encodable.
    pub open spec fn wf(self) -> bool {
        self.tube.wf()
    }
}

/// The bytes a request payload writes: the interface position, then the
/// tube.
pub open spec fn spec_request_bytes(m: RequestModel) -> Seq<u8> {
    seq![m.interface_position_index.value()] + spec_tube_bytes(m.tube)
}

/// What decoding a request payload at the fixed offset after the header
/// yields: the request, or the first fault found.
pub open spec fn spec_parse_request(s: Seq<u8>) -> Result<RequestModel, DecodeError> {
    if s.len() < HEADER_LEN + 1 {
        Err(DecodeError::BufferTooShort)
    } else {
        match InterfacePositionIndex::spec_from_u8(s[HEADER_LEN as int]) {
            None => Err(DecodeError::MalformedPayload),
            Some(ipi) => match spec_parse_tube(s, HEADER_LEN + 1) {
                Err(e) => Err(e),
                Ok(t) => Ok(
                    RequestModel { interface_position_index: ipi, tube: t },
                ),
            },
        }
    }
}

impl AddQueueRequest {
    pub fn new(interface_position_index: InterfacePositionIndex, tube: &UrapTube) -> (r: Self)
        ensures
            r@ == (RequestModel { interface_position_index, tube: tube@ }),
            r.tube.sample_id == tube.sample_id,
    {
        AddQueueRequest { interface_position_index, tube: tube.duplicate() }
    }

    /// Writes the request's payload bytes; fails exactly when the tube's
    /// sample identifier does not fit its length prefix.
    pub fn encode(&self) -> (r: Result<bytes::BytesMut, DecodeError>)
        ensures
            match r {
                Ok(b) => self@.wf() && bm_bytes(b) == spec_request_bytes(self@),
                Err(e) => e == DecodeError::FrameTooLarge && !self@.wf(),
            },
    {
        let tube_bytes = match self.tube.encode() {
            Err(e) => {
                return Err(e);
            },
            Ok(b) => b,
        };
        let mut dst = bm_new();
        bm_put_u8(&mut dst, self.interface_position_index.as_u8());
        bm_append(&mut dst, &tube_bytes);
        proof {
            assert(bm_bytes(dst) =~= spec_request_bytes(self@));
        }
        Ok(dst)
    }

    /// Reads a request's payload fields at their fixed offsets after the
    /// header.
    pub fn from_bytes(src: &bytes::BytesMut) -> (r: Result<AddQueueRequest, DecodeError>)
        ensures
            match (r, spec_parse_request(bm_bytes(*src))) {
                (Ok(p), Ok(m)) => p@ == m && m.wf(),
                (Err(e), Err(me)) => e == me,
                _ => false,
            },
    {
        let total = crate::bytebuf::bm_len(src);
        if total < HEADER_LEN + 1 {
            return Err(DecodeError::BufferTooShort);
        }
        let interface_position_index = match InterfacePositionIndex::try_from_u8(
            bm_get(src, HEADER_LEN),
        ) {
            None => {
                return Err(DecodeError::MalformedPayload);
            },
            Some(v) => v,
        };
        let tube = match UrapTube::from_bytes(src, HEADER_LEN + 1) {
            Err(e) => {
                return Err(e);
            },
            Ok(t) => t,
        };
        Ok(AddQueueRequest { interface_position_index, tube })
    }

    /// The fixed tag identifying this variant.
    pub fn get_message_type(&self) -> (r: MessageType)
        ensures
            r == MessageType::AddQueueRequest,
    {
        MessageType::AddQueueRequest
    }

    /// The tag of the variant that legitimately answers this one.
    pub fn response_message_type(&self) -> (r: Option<MessageType>)
        ensures
            r == Some(MessageType::AddQueueResponse),
    {
        Some(MessageType::AddQueueResponse)
    }
}

/// Encoding a well-formed request payload behind an 18-byte header and
/// parsing the buffer back yields the same request again.
pub proof fn lemma_request_round_trip(m: RequestModel, prefix: Seq<u8>, suffix: Seq<u8>)
    requires
        m.wf(),
        prefix.len() == HEADER_LEN,
    ensures
        spec_parse_request(prefix + spec_request_bytes(m) + suffix) == Ok::<
            RequestModel,
            DecodeError,
        >(m),
{
    let s = prefix + spec_request_bytes(m) + suffix;
    assert(s[HEADER_LEN as int] == m.interface_position_index.value());
    assert(s =~= (prefix + seq![m.interface_position_index.value()]) + spec_tube_bytes(m.tube)
        + suffix);
    crate::urap_tube::lemma_tube_round_trip(
        m.tube,
        prefix + seq![m.interface_position_index.value()],
        suffix,
    );
    assert(spec_parse_request(s).unwrap() =~= m);
}

} // verus!
