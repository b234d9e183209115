//! The closed, type-tagged payload union and its dispatch: every declared
//! variant appears here, in the view, in the byte image, and in each
//! exhaustive match, so adding a variant without registering it fails to
//! compile rather than failing at run time.

use vstd::prelude::*;

use crate::add_queue_request::{spec_request_bytes, AddQueueRequest, RequestModel};
use crate::add_queue_response::{spec_response_bytes, AddQueueResponse, ResponseModel};
use crate::bytebuf::bm_bytes;
use crate::enums::{DecodeError, MessageType};

verus! {

/// The payload of a message: one declared variant, or the explicit
/// not-yet-populated state, which no populated message carries.
#[derive(Debug)]
pub enum Payload {
    NoMessage,
    AddQueueRequest(AddQueueRequest),
    AddQueueResponse(AddQueueResponse),
}

/// Mathematical image of a payload.
#[verifier::ext_equal]
pub ghost enum PayloadModel {
    NoMessage,
    AddQueueRequest(RequestModel),
    AddQueueResponse(ResponseModel),
}

impl View for Payload {
    type V = PayloadModel;

    open spec fn view(&self) -> PayloadModel {
        match self {
            Payload::NoMessage => PayloadModel::NoMessage,
            Payload::AddQueueRequest(p) => PayloadModel::AddQueueRequest(p@),
            Payload::AddQueueResponse(p) => PayloadModel::AddQueueResponse(p@),
        }
    }
}

impl PayloadModel {
    /// A payload that can travel in a frame: a declared variant whose
    /// fields are within their valid ranges.
    pub open spec fn wf(self) -> bool {
        match self {
            PayloadModel::NoMessage => false,
            PayloadModel::AddQueueRequest(m) => m.wf(),
            PayloadModel::AddQueueResponse(m) => m.wf(),
        }
    }

    /// The tag of this payload's variant.
    pub open spec fn spec_message_type(self) -> MessageType {
        match self {
            PayloadModel::NoMessage => MessageType::NoMessageType,
            PayloadModel::AddQueueRequest(_) => MessageType::AddQueueRequest,
            PayloadModel::AddQueueResponse(_) => MessageType::AddQueueResponse,
        }
    }

    /// The tag of the variant that legitimately answers this payload, if
    /// it expects an answer at all.
    pub open spec fn spec_response_message_type(self) -> Option<MessageType> {
        match self {
            PayloadModel::NoMessage => None,
            PayloadModel::AddQueueRequest(_) => Some(MessageType::AddQueueResponse),
            PayloadModel::AddQueueResponse(_) => None,
        }
    }
}

/// The bytes a payload writes between header and footer.
pub open spec fn spec_payload_bytes(p: PayloadModel) -> Seq<u8>
    recommends
        !(p is NoMessage),
{
    match p {
        PayloadModel::NoMessage => Seq::<u8>::empty(),
        PayloadModel::AddQueueRequest(m) => spec_request_bytes(m),
        PayloadModel::AddQueueResponse(m) => spec_response_bytes(m),
    }
}

/// Every encodable payload occupies between 1 and 262 bytes, so every
/// frame fits the 16-bit length field.
pub proof fn lemma_payload_bytes_len(p: PayloadModel)
    requires
        p.wf(),
    ensures
        1 <= spec_payload_bytes(p).len() <= 262,
{
}

/// Tag exhaustiveness: every declared variant's tag maps back to itself
/// through the registry, so the factory dispatches every declared
/// variant, and no declared variant carries the reserved empty tag.
pub proof fn lemma_registry_covers_variants(p: PayloadModel)
    requires
        !(p is NoMessage),
    ensures
        MessageType::spec_from_u16(p.spec_message_type().value()) == Some(p.spec_message_type()),
        p.spec_message_type() != MessageType::NoMessageType,
{
}

impl Payload {
    /// Writes this payload's bytes; fails exactly when a field does not
    /// fit its wire encoding.
    pub fn encode(&self) -> (r: Result<bytes::BytesMut, DecodeError>)
        requires
            !(self@ is NoMessage),
        ensures
            match r {
                Ok(b) => self@.wf() && bm_bytes(b) == spec_payload_bytes(self@),
                Err(e) => e == DecodeError::FrameTooLarge && !self@.wf(),
            },
    {
        match self {
            Payload::NoMessage => {
                proof {
                    assert(false);
                }
                Err(DecodeError::FrameTooLarge)
            },
            Payload::AddQueueRequest(p) => p.encode(),
            Payload::AddQueueResponse(p) => p.encode(),
        }
    }

    /// The tag of this payload's variant.
    pub fn get_message_type(&self) -> (r: MessageType)
        requires
            !(self@ is NoMessage),
        ensures
            r == self@.spec_message_type(),
    {
        match self {
            Payload::NoMessage => {
                proof {
                    assert(false);
                }
                MessageType::NoMessageType
            },
            Payload::AddQueueRequest(p) => p.get_message_type(),
            Payload::AddQueueResponse(p) => p.get_message_type(),
        }
    }

    /// The tag of the variant that legitimately answers this payload.
    pub fn response_message_type(&self) -> (r: Option<MessageType>)
        requires
            !(self@ is NoMessage),
        ensures
            r == self@.spec_response_message_type(),
    {
        match self {
            Payload::NoMessage => {
                proof {
                    assert(false);
                }
                None
            },
            Payload::AddQueueRequest(p) => p.response_message_type(),
            Payload::AddQueueResponse(p) => p.response_message_type(),
        }
    }

    /// How many bytes this payload occupies on the wire.
    pub fn encoded_len(&self) -> (r: usize)
        requires
            self@.wf(),
        ensures
            r == spec_payload_bytes(self@).len(),
    {
        match self {
            Payload::NoMessage => {
                proof {
                    assert(false);
                }
                0
            },
            Payload::AddQueueRequest(p) => 7 + p.tube.sample_id.as_str().as_bytes().len(),
            Payload::AddQueueResponse(p) => 3 + p.sample_id.as_str().as_bytes().len(),
        }
    }
}

} // verus!
