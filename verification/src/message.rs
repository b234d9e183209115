//! A complete message: header, payload, footer. Encoding assembles the
//! three sections and patches the length and checksum fields; the factory
//! decodes a raw frame back, dispatching on the message-type tag and
//! validating the footer; correlation ties a response to its request by
//! sequence ids and tags.

use vstd::prelude::*;

use crate::add_queue_request::{lemma_request_round_trip, spec_request_bytes, AddQueueRequest};
use crate::add_queue_response::{lemma_response_round_trip, spec_response_bytes, AddQueueResponse};
use crate::bytebuf::{bm_append, bm_bytes, bm_len};
use crate::checksum::{
    checksum_of, compute_checksum, lemma_checksum_detects_single_byte_change,
};
use crate::enums::{DecodeError, MessageType};
use crate::footer::{
    lemma_footer_round_trip, spec_footer_bytes, spec_parse_footer, Footer,
};
use crate::header::{
    lemma_header_round_trip, spec_header_bytes, spec_parse_header, Header, HeaderModel,
};
use crate::payload::{
    lemma_payload_bytes_len, spec_payload_bytes, Payload, PayloadModel,
};
use crate::{spec_be_u16, spec_u16_be, FOOTER_LEN, HEADER_LEN};

verus! {

/// One encodable, decodable message.
#[derive(Debug)]
pub struct Message {
    pub header: Header,
    pub message_body: Payload,
    pub footer: Footer,
}

/// Mathematical image of a message.
#[verifier::ext_equal]
pub ghost struct MessageModel {
    pub header: HeaderModel,
    pub message_body: PayloadModel,
    pub footer: Footer,
}

impl View for Message {
    type V = MessageModel;

    open spec fn view(&self) -> MessageModel {
        MessageModel { header: self.header@, message_body: self.message_body@, footer: self.footer }
    }
}

impl MessageModel {
    /// A populated message: its payload is a declared variant and its
    /// header carries that variant's tag.
    pub open spec fn wf(self) -> bool {
        &&& self.header.wf()
        &&& !(self.message_body is NoMessage)
        &&& self.header.message_type == self.message_body.spec_message_type()
    }
}

/// The full frame a message writes: its header with the total length
/// patched in, its payload, and a footer carrying the checksum over the
/// first two sections.
pub open spec fn spec_message_frame(m: MessageModel) -> Seq<u8> {
    let payload = spec_payload_bytes(m.message_body);
    let body = spec_header_bytes(
        HeaderModel {
            message_length: (HEADER_LEN + payload.len() + FOOTER_LEN) as u16,
            ..m.header
        },
    ) + payload;
    body + spec_footer_bytes(Footer { crc: checksum_of(body) })
}

/// The message value as it stands once encoding has patched its length
/// and checksum fields.
pub open spec fn spec_patched(m: MessageModel) -> MessageModel {
    let payload = spec_payload_bytes(m.message_body);
    let patched_header = HeaderModel {
        message_length: (HEADER_LEN + payload.len() + FOOTER_LEN) as u16,
        ..m.header
    };
    MessageModel {
        header: patched_header,
        message_body: m.message_body,
        footer: Footer { crc: checksum_of(spec_header_bytes(patched_header) + payload) },
    }
}

/// After header and payload have parsed: the frame must end exactly where
/// the payload ends plus the footer, and the footer must validate against
/// the bytes before it.
pub open spec fn spec_finish_message(s: Seq<u8>, h: HeaderModel, p: PayloadModel) -> Result<
    MessageModel,
    DecodeError,
> {
    let need = HEADER_LEN + spec_payload_bytes(p).len() + FOOTER_LEN;
    if s.len() < need {
        Err(DecodeError::BufferTooShort)
    } else if s.len() > need {
        Err(DecodeError::FramingError)
    } else {
        match spec_parse_footer(s, s.len() - FOOTER_LEN) {
            Err(e) => Err(e),
            Ok(f) => Ok(MessageModel { header: h, message_body: p, footer: f }),
        }
    }
}

/// What decoding a raw frame yields: first the header, then the length
/// field against the buffer, then the payload variant the tag names, then
/// the footer; or the first fault found.
pub open spec fn spec_parse_message(s: Seq<u8>) -> Result<MessageModel, DecodeError> {
    match spec_parse_header(s) {
        Err(e) => Err(e),
        Ok(h) => {
            if s.len() < h.message_length {
                Err(DecodeError::BufferTooShort)
            } else if s.len() > h.message_length {
                Err(DecodeError::FramingError)
            } else {
                match h.message_type {
                    MessageType::NoMessageType => Err(DecodeError::UnknownMessageType),
                    MessageType::AddQueueRequest => match crate::add_queue_request::spec_parse_request(
                        s,
                    ) {
                        Err(e) => Err(e),
                        Ok(p) => spec_finish_message(s, h, PayloadModel::AddQueueRequest(p)),
                    },
                    MessageType::AddQueueResponse => match crate::add_queue_response::spec_parse_response(
                        s,
                    ) {
                        Err(e) => Err(e),
                        Ok(p) => spec_finish_message(s, h, PayloadModel::AddQueueResponse(p)),
                    },
                }
            }
        },
    }
}

impl Message {
    /// A message for the given payload: the header takes the payload's
    /// own tag, the sequence id stays 0 until the correlation authority
    /// assigns one, and the checksum stays 0 until encoding computes it.
    pub fn new(return_sequence_id: u16, instrument_id: u8, message_body: Payload) -> (r: Self)
        requires
            !(message_body@ is NoMessage),
        ensures
            r@.wf(),
            r@.message_body == message_body@,
            r.header.sequence_id == 0,
            r.header.message_length == 0,
            r.header.return_sequence_id == return_sequence_id,
            r.header.instrument_id == instrument_id,
            r@.header.message_type == message_body@.spec_message_type(),
            r@.header.time_stamp == Seq::new(8, |i: int| 0u8),
            r.footer.crc == 0,
    {
        let message_type = message_body.get_message_type();
        Message {
            header: Header::new(message_type, return_sequence_id, instrument_id),
            message_body,
            footer: Footer::new(),
        }
    }

    /// The correlation authority assigns a unique sequence id per
    /// outstanding request before the message is encoded.
    pub fn set_sequence_id(&mut self, sequence_id: u16)
        ensures
            final(self)@ == (MessageModel {
                header: HeaderModel { sequence_id, ..old(self)@.header },
                ..old(self)@
            }),
    {
        self.header.sequence_id = sequence_id;
    }

    /// Whether this message expects an answer at all.
    pub fn need_response(&self) -> (r: bool)
        requires
            !(self@.message_body is NoMessage),
        ensures
            r == (self@.message_body.spec_response_message_type() is Some),
    {
        self.message_body.response_message_type().is_some()
    }

    /// The sole correlation rule: `resp` answers this message exactly
    /// when this message expects an answer, `resp` echoes this message's
    /// sequence id in its return-sequence id, and `resp` carries the tag
    /// this message's payload declared it expects.
    pub fn is_my_response(&self, resp: Message) -> (r: bool)
        requires
            !(self@.message_body is NoMessage),
            !(resp@.message_body is NoMessage),
        ensures
            r == (self@.message_body.spec_response_message_type() is Some
                && self@.header.sequence_id == resp@.header.return_sequence_id
                && self@.message_body.spec_response_message_type() == Some(
                resp@.message_body.spec_message_type(),
            )),
    {
        if let Some(message_type) = self.message_body.response_message_type() {
            return self.header.sequence_id == resp.header.return_sequence_id && message_type
                == resp.message_body.get_message_type();
        }
        false
    }

    /// Assembles header, payload, and footer into one frame, patching the
    /// header's length field and the footer's checksum in this message;
    /// fails exactly when a payload field does not fit its wire encoding,
    /// leaving the message unchanged.
    pub fn encode(&mut self) -> (r: Result<bytes::BytesMut, DecodeError>)
        requires
            old(self)@.wf(),
        ensures
            match r {
                Ok(b) => {
                    &&& old(self)@.message_body.wf()
                    &&& bm_bytes(b) == spec_message_frame(old(self)@)
                    &&& final(self)@ == spec_patched(old(self)@)
                },
                Err(e) => {
                    &&& e == DecodeError::FrameTooLarge
                    &&& !old(self)@.message_body.wf()
                    &&& final(self)@ == old(self)@
                },
            },
    {
        let payload_buf = match self.message_body.encode() {
            Err(e) => {
                return Err(e);
            },
            Ok(b) => b,
        };
        proof {
            lemma_payload_bytes_len(self@.message_body);
        }
        let plen = bm_len(&payload_buf);
        let total = HEADER_LEN + plen + FOOTER_LEN;
        if total > 0xFFFF {
            proof {
                assert(false);
            }
            return Err(DecodeError::FrameTooLarge);
        }
        self.header.message_length = total as u16;
        let mut dst = self.header.encode();
        bm_append(&mut dst, &payload_buf);
        let body_len = bm_len(&dst);
        let crc = compute_checksum(&dst, body_len);
        proof {
            assert(bm_bytes(dst).take(body_len as int) =~= bm_bytes(dst));
        }
        self.footer.crc = crc;
        let tail = self.footer.encode();
        bm_append(&mut dst, &tail);
        proof {
            let m = old(self)@;
            let payload = spec_payload_bytes(m.message_body);
            let patched_header = HeaderModel {
                message_length: (HEADER_LEN + payload.len() + FOOTER_LEN) as u16,
                ..m.header
            };
            assert(self.header@ =~= patched_header);
            assert(bm_bytes(dst) =~= spec_message_frame(m));
            assert(self@ =~= spec_patched(m));
        }
        Ok(dst)
    }
}

/// Decodes a raw frame into a populated message: header first, then the
/// length field against the buffer, then the payload variant the tag
/// names, then the footer; the first fault found rejects the frame.
pub fn message_factory(src: &bytes::BytesMut) -> (r: Result<Message, DecodeError>)
    ensures
        match (r, spec_parse_message(bm_bytes(*src))) {
            (Ok(m), Ok(model)) => m@ == model && model.wf(),
            (Err(e), Err(me)) => e == me,
            _ => false,
        },
{
    let n = bm_len(src);
    let header = match Header::decode(src) {
        Err(e) => {
            return Err(e);
        },
        Ok(h) => h,
    };
    let claimed = header.message_length as usize;
    if n < claimed {
        return Err(DecodeError::BufferTooShort);
    }
    if n > claimed {
        return Err(DecodeError::FramingError);
    }
    let message_body = match header.message_type {
        MessageType::NoMessageType => {
            return Err(DecodeError::UnknownMessageType);
        },
        MessageType::AddQueueRequest => {
            match AddQueueRequest::from_bytes(src) {
                Err(e) => {
                    return Err(e);
                },
                Ok(p) => Payload::AddQueueRequest(p),
            }
        },
        MessageType::AddQueueResponse => {
            match AddQueueResponse::from_bytes(src) {
                Err(e) => {
                    return Err(e);
                },
                Ok(p) => Payload::AddQueueResponse(p),
            }
        },
    };
    let plen = message_body.encoded_len();
    let need = HEADER_LEN + plen + FOOTER_LEN;
    if n < need {
        return Err(DecodeError::BufferTooShort);
    }
    if n > need {
        return Err(DecodeError::FramingError);
    }
    let footer = match Footer::decode(src, n - FOOTER_LEN) {
        Err(e) => {
            return Err(e);
        },
        Ok(f) => f,
    };
    Ok(Message { header, message_body, footer })
}

/// Round trip: encoding any populated message whose payload fields are
/// within their valid ranges and handing the frame to the factory yields
/// exactly the encoded message, its length and checksum fields patched in.
pub proof fn lemma_message_round_trip(m: MessageModel)
    requires
        m.wf(),
        m.message_body.wf(),
    ensures
        spec_parse_message(spec_message_frame(m)) == Ok::<MessageModel, DecodeError>(
            spec_patched(m),
        ),
{
    let payload = spec_payload_bytes(m.message_body);
    lemma_payload_bytes_len(m.message_body);
    let total = (HEADER_LEN + payload.len() + FOOTER_LEN) as u16;
    let h2 = HeaderModel { message_length: total, ..m.header };
    let hb = spec_header_bytes(h2);
    let body = hb + payload;
    let f = Footer { crc: checksum_of(body) };
    let s = spec_message_frame(m);
    assert(hb.len() == HEADER_LEN);
    assert(s == body + spec_footer_bytes(f));
    assert(s =~= hb + (payload + spec_footer_bytes(f)));
    lemma_header_round_trip(h2, payload + spec_footer_bytes(f));
    assert(spec_parse_header(s) == Ok::<HeaderModel, DecodeError>(h2));
    assert(s.len() == total);
    match m.message_body {
        PayloadModel::NoMessage => {
            assert(false);
        },
        PayloadModel::AddQueueRequest(p) => {
            assert(s =~= hb + spec_request_bytes(p) + spec_footer_bytes(f));
            lemma_request_round_trip(p, hb, spec_footer_bytes(f));
        },
        PayloadModel::AddQueueResponse(p) => {
            assert(s =~= hb + spec_response_bytes(p) + spec_footer_bytes(f));
            lemma_response_round_trip(p, hb, spec_footer_bytes(f));
        },
    }
    lemma_footer_round_trip(body, f);
    assert(s.len() - FOOTER_LEN == body.len());
    assert(spec_parse_message(s) is Ok);
    assert(spec_parse_message(s).unwrap() =~= spec_patched(m));
}

/// Corruption rejection: flip any single byte of an encoded frame ahead
/// of its checksum-and-end-marker tail and the factory rejects the frame;
/// in particular a frame that still parses structurally fails its
/// checksum comparison.
pub proof fn lemma_single_corruption_rejected(m: MessageModel, c: Seq<u8>, i: int)
    requires
        m.wf(),
        m.message_body.wf(),
        c.len() == spec_message_frame(m).len(),
        0 <= i < spec_message_frame(m).len() - FOOTER_LEN,
        c[i] != spec_message_frame(m)[i],
        forall|j: int| 0 <= j < c.len() && j != i ==> c[j] == spec_message_frame(m)[j],
    ensures
        spec_parse_message(c) is Err,
{
    let s = spec_message_frame(m);
    let len = s.len() as int;
    if spec_parse_message(c) is Ok {
        let payload = spec_payload_bytes(m.message_body);
        lemma_payload_bytes_len(m.message_body);
        let total = (HEADER_LEN + payload.len() + FOOTER_LEN) as u16;
        let h2 = HeaderModel { message_length: total, ..m.header };
        let body = spec_header_bytes(h2) + payload;
        assert(s == body + spec_footer_bytes(Footer { crc: checksum_of(body) }));
        assert(s.take(len - FOOTER_LEN) =~= body);
        crate::lemma_u16_be_round_trip(checksum_of(body));
        assert(s[len - 3] == spec_u16_be(checksum_of(body))[0]);
        assert(s[len - 2] == spec_u16_be(checksum_of(body))[1]);
        assert(spec_be_u16(s[len - 3], s[len - 2]) == checksum_of(body));
        // Every accepting path of the parse validated the footer at the
        // fixed tail position, so the transmitted checksum matched the one
        // recomputed over the corrupted region.
        assert(spec_parse_footer(c, len - FOOTER_LEN) is Ok);
        assert(spec_be_u16(c[len - 3], c[len - 2]) == checksum_of(c.take(len - FOOTER_LEN)));
        assert(c[len - 3] == s[len - 3]);
        assert(c[len - 2] == s[len - 2]);
        // But the corrupted region differs from the clean one in exactly
        // one byte, so its checksum cannot match the transmitted one.
        let clean = s.take(len - FOOTER_LEN);
        let dirty = c.take(len - FOOTER_LEN);
        assert(clean.len() == dirty.len());
        assert(dirty[i] != clean[i]);
        assert(forall|j: int| 0 <= j < clean.len() && j != i ==> dirty[j] == clean[j]);
        lemma_checksum_detects_single_byte_change(clean, dirty, i);
        assert(false);
    }
}

} // verus!
