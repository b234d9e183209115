use bytes::BytesMut;

use atellica::add_queue_request::AddQueueRequest;
use atellica::add_queue_response::AddQueueResponse;
use atellica::enums::{
    AddQueueCommandStatusValues, CarrierOccupancy, DecodeError, InterfacePositionIndex,
    SamplePriority, TubeType,
};
use atellica::message::{message_factory, Message};
use atellica::payload::Payload;
use atellica::urap_tube::UrapTube;

fn request_frame(sample_id: &str) -> BytesMut {
    let tube = UrapTube::new(
        CarrierOccupancy::CappedTube,
        TubeType::Greiner,
        sample_id.to_string(),
        SamplePriority::Routine,
        5,
        13,
    );
    let mut request = Message::new(
        0,
        10,
        Payload::AddQueueRequest(AddQueueRequest::new(InterfacePositionIndex::IP1, &tube)),
    );
    request.set_sequence_id(0x1234);
    request.encode().expect("encodable")
}

fn reframe(bytes: &[u8]) -> BytesMut {
    BytesMut::from(bytes)
}

#[test]
fn boundary_sample_id_255_encodes_and_decodes() {
    let long_id: String = "a".repeat(255);
    let frame = request_frame(&long_id);
    let decoded = message_factory(&frame).expect("valid frame");
    match decoded.message_body {
        Payload::AddQueueRequest(p) => assert_eq!(p.tube.sample_id, long_id),
        _ => panic!("wrong variant decoded"),
    }
}

#[test]
fn boundary_sample_id_256_fails_encoding() {
    let too_long: String = "a".repeat(256);
    let tube = UrapTube::new(
        CarrierOccupancy::CappedTube,
        TubeType::Greiner,
        too_long.clone(),
        SamplePriority::Routine,
        0,
        0,
    );
    assert_eq!(tube.encode().unwrap_err(), DecodeError::FrameTooLarge);

    let mut request = Message::new(
        0,
        1,
        Payload::AddQueueRequest(AddQueueRequest::new(InterfacePositionIndex::IP0, &tube)),
    );
    assert_eq!(request.encode().unwrap_err(), DecodeError::FrameTooLarge);

    let mut response = Message::new(
        0,
        1,
        Payload::AddQueueResponse(AddQueueResponse::new(
            InterfacePositionIndex::IP0,
            too_long,
            AddQueueCommandStatusValues::CommandOk,
        )),
    );
    assert_eq!(response.encode().unwrap_err(), DecodeError::FrameTooLarge);
}

#[test]
fn every_single_bit_flip_ahead_of_the_tail_is_rejected() {
    let frame = request_frame("SampleId");
    let clean: Vec<u8> = frame.to_vec();
    let n = clean.len();
    for i in 0..n - 3 {
        for bit in 0..8 {
            let mut dirty = clean.clone();
            dirty[i] ^= 1 << bit;
            let result = message_factory(&reframe(&dirty));
            assert!(
                result.is_err(),
                "flipping bit {} of byte {} was accepted",
                bit,
                i
            );
        }
    }
}

#[test]
fn payload_corruption_fails_the_checksum() {
    let frame = request_frame("SampleId");
    let mut dirty = frame.to_vec();
    // A byte inside the sample identifier: the frame still parses
    // structurally, so the checksum comparison must catch it.
    let idx = dirty.len() - 7;
    dirty[idx] ^= 0x01;
    assert_eq!(
        message_factory(&reframe(&dirty)).unwrap_err(),
        DecodeError::ChecksumError
    );
}

#[test]
fn missing_start_marker_is_a_framing_error() {
    let mut dirty = request_frame("S").to_vec();
    dirty[0] = 0x7E;
    assert_eq!(
        message_factory(&reframe(&dirty)).unwrap_err(),
        DecodeError::FramingError
    );
}

#[test]
fn missing_end_marker_is_a_framing_error() {
    let mut dirty = request_frame("S").to_vec();
    let last = dirty.len() - 1;
    dirty[last] = 0x00;
    assert_eq!(
        message_factory(&reframe(&dirty)).unwrap_err(),
        DecodeError::FramingError
    );
}

#[test]
fn unknown_tag_is_rejected_before_the_checksum() {
    let mut dirty = request_frame("S").to_vec();
    // Tag bytes live at offsets 7 and 8; 0x9999 names no variant. The
    // registry lookup precedes the checksum comparison, so the error is
    // the tag's, not the checksum's.
    dirty[7] = 0x99;
    dirty[8] = 0x99;
    assert_eq!(
        message_factory(&reframe(&dirty)).unwrap_err(),
        DecodeError::UnknownMessageType
    );
}

#[test]
fn reserved_empty_tag_is_rejected() {
    let mut dirty = request_frame("S").to_vec();
    dirty[7] = 0x00;
    dirty[8] = 0x00;
    assert_eq!(
        message_factory(&reframe(&dirty)).unwrap_err(),
        DecodeError::UnknownMessageType
    );
}

#[test]
fn short_garbage_without_start_marker_is_a_framing_error() {
    // The start marker is verified before the length: a few stray bytes
    // that do not open with the marker mean the frame boundary is lost,
    // and the caller must resynchronize, not wait for more bytes.
    let garbage: Vec<u8> = vec![0x00, 0x00, 0x00, 0x00, 0x00];
    assert_eq!(
        message_factory(&reframe(&garbage)).unwrap_err(),
        DecodeError::FramingError
    );
    let one_byte: Vec<u8> = vec![0x7E];
    assert_eq!(
        message_factory(&reframe(&one_byte)).unwrap_err(),
        DecodeError::FramingError
    );
    // An empty buffer has no byte to verify: only more input can help.
    let empty: Vec<u8> = vec![];
    assert_eq!(
        message_factory(&reframe(&empty)).unwrap_err(),
        DecodeError::BufferTooShort
    );
    // A truncated header behind a good marker is still a short buffer.
    let marker_only: Vec<u8> = vec![0x02, 0x00, 0x05];
    assert_eq!(
        message_factory(&reframe(&marker_only)).unwrap_err(),
        DecodeError::BufferTooShort
    );
}

#[test]
fn truncated_frame_is_too_short() {
    let frame = request_frame("SampleId").to_vec();
    // Shorter than any header.
    assert_eq!(
        message_factory(&reframe(&frame[..10])).unwrap_err(),
        DecodeError::BufferTooShort
    );
    // Header intact, frame cut before its declared end.
    assert_eq!(
        message_factory(&reframe(&frame[..frame.len() - 1])).unwrap_err(),
        DecodeError::BufferTooShort
    );
}

#[test]
fn trailing_garbage_is_a_framing_error() {
    let mut long = request_frame("SampleId").to_vec();
    long.push(0x00);
    assert_eq!(
        message_factory(&reframe(&long)).unwrap_err(),
        DecodeError::FramingError
    );
}

#[test]
fn out_of_range_field_is_malformed() {
    let clean = request_frame("SampleId").to_vec();
    // Interface position index lives right after the header; only 0 and 1
    // are declared.
    let mut dirty = clean.clone();
    dirty[18] = 0x05;
    fix_checksum(&mut dirty);
    assert_eq!(
        message_factory(&reframe(&dirty)).unwrap_err(),
        DecodeError::MalformedPayload
    );
    // Carrier occupancy admits 0, 1, 2.
    let mut dirty = clean.clone();
    dirty[19] = 0x09;
    fix_checksum(&mut dirty);
    assert_eq!(
        message_factory(&reframe(&dirty)).unwrap_err(),
        DecodeError::MalformedPayload
    );
    // A sample identifier that is not UTF-8.
    let mut dirty = clean;
    dirty[22] = 0xFF;
    fix_checksum(&mut dirty);
    assert_eq!(
        message_factory(&reframe(&dirty)).unwrap_err(),
        DecodeError::MalformedPayload
    );
}

fn fix_checksum(frame: &mut [u8]) {
    let n = frame.len();
    let mut sum: u32 = 0;
    for &b in frame[..n - 3].iter() {
        sum = (sum + b as u32) % 0x10000;
    }
    frame[n - 3] = (sum >> 8) as u8;
    frame[n - 2] = sum as u8;
}

#[test]
fn length_prefix_frames_the_sample_id() {
    // The sample identifier rides behind a 1-byte length prefix; if the
    // field codec handed its argument through unframed, these offsets
    // would not hold.
    let frame = request_frame("AB").to_vec();
    assert_eq!(frame[21], 2); // length prefix
    assert_eq!(frame[22], b'A');
    assert_eq!(frame[23], b'B');
    assert_eq!(frame[24], 1); // priority follows immediately
    assert_eq!(frame[25], 5); // tube height
    assert_eq!(frame[26], 13); // tube diameter
}

#[test]
fn enum_wire_values_are_fixed() {
    assert_eq!(
        atellica::enums::MessageType::AddQueueRequest.as_u16(),
        0x0405
    );
    assert_eq!(
        atellica::enums::MessageType::AddQueueResponse.as_u16(),
        0x0406
    );
    assert_eq!(atellica::enums::MessageType::NoMessageType.as_u16(), 0);
    assert_eq!(
        atellica::enums::MessageType::try_from_u16(0x0405),
        Some(atellica::enums::MessageType::AddQueueRequest)
    );
    assert_eq!(atellica::enums::MessageType::try_from_u16(0x0404), None);
    assert_eq!(CarrierOccupancy::CappedTube.as_u8(), 2);
    assert_eq!(
        CarrierOccupancy::try_from_u8(1),
        Some(CarrierOccupancy::UncappedTube)
    );
    assert_eq!(CarrierOccupancy::try_from_u8(3), None);
    assert_eq!(SamplePriority::STAT.as_u8(), 2);
    assert_eq!(SamplePriority::try_from_u8(9), None);
    assert_eq!(TubeType::Greiner.as_u8(), 0);
    assert_eq!(TubeType::try_from_u8(1), None);
    assert_eq!(InterfacePositionIndex::IP1.as_u8(), 1);
    assert_eq!(InterfacePositionIndex::try_from_u8(2), None);
    assert_eq!(AddQueueCommandStatusValues::CommandOk.as_u8(), 0);
    assert_eq!(AddQueueCommandStatusValues::try_from_u8(1), None);
}

#[test]
fn fresh_parts_start_empty() {
    let footer = atellica::footer::Footer::new();
    assert_eq!(footer.crc, 0);
    let header = atellica::header::Header::new(
        atellica::enums::MessageType::AddQueueRequest,
        0x42,
        9,
    );
    assert_eq!(header.message_length, 0);
    assert_eq!(header.sequence_id, 0);
    assert_eq!(header.return_sequence_id, 0x42);
    assert_eq!(header.instrument_id, 9);
    assert_eq!(header.time_stamp, [0u8; 8]);
}
