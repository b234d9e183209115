use atellica::add_queue_request::AddQueueRequest;
use atellica::add_queue_response::AddQueueResponse;
use atellica::enums::{
    AddQueueCommandStatusValues, CarrierOccupancy, InterfacePositionIndex, MessageType,
    SamplePriority, TubeType,
};
use atellica::message::{message_factory, Message};
use atellica::payload::Payload;
use atellica::urap_tube::UrapTube;

fn sample_tube(sample_id: &str) -> UrapTube {
    UrapTube::new(
        CarrierOccupancy::CappedTube,
        TubeType::Greiner,
        sample_id.to_string(),
        SamplePriority::Routine,
        0,
        0,
    )
}

#[test]
fn message2_test() {
    let tube = UrapTube::new(
        CarrierOccupancy::CappedTube,
        TubeType::Greiner,
        "SampleId".to_string(),
        SamplePriority::Routine,
        0,
        0,
    );

    let instrument_id = 10;
    let interface_position_index = InterfacePositionIndex::IP1;

    let mut request = Message::new(
        0,
        instrument_id,
        Payload::AddQueueRequest(AddQueueRequest::new(interface_position_index, &tube)),
    );
    request.set_sequence_id(0x1234);
    let encode_request = request.encode().expect("");

    println!("request.encode: {:?}", encode_request);

    let mut response = Message::new(
        request.header.sequence_id,
        instrument_id,
        Payload::AddQueueResponse(AddQueueResponse::new(
            interface_position_index,
            tube.sample_id.clone(),
            AddQueueCommandStatusValues::CommandOk,
        )),
    );
    response.set_sequence_id(0x5678);

    let encode_response = response.encode().expect("");
    println!("response.encode(): {:?}", encode_response);
    println!(
        "request.is_my_response(response): {}",
        request.is_my_response(response)
    );

    let msg_request_decoded = message_factory(&encode_request);
    println!("msg_request_decoded: {:?}", msg_request_decoded);

    let msg_response_decoded = message_factory(&encode_response);
    println!("msg_response_decoded: {:?}", msg_response_decoded);
}

#[test]
fn round_trip_request_fields() {
    let tube = sample_tube("TUBE-42");
    let mut request = Message::new(
        0,
        9,
        Payload::AddQueueRequest(AddQueueRequest::new(InterfacePositionIndex::IP0, &tube)),
    );
    request.set_sequence_id(0x0102);
    let frame = request.encode().expect("encodable");
    let decoded = message_factory(&frame).expect("valid frame");

    assert_eq!(decoded.header.sequence_id, 0x0102);
    assert_eq!(decoded.header.return_sequence_id, 0);
    assert_eq!(decoded.header.instrument_id, 9);
    assert_eq!(decoded.header.message_type, MessageType::AddQueueRequest);
    assert_eq!(decoded.header.message_length as usize, frame.len());
    match decoded.message_body {
        Payload::AddQueueRequest(p) => {
            assert_eq!(p.interface_position_index, InterfacePositionIndex::IP0);
            assert_eq!(p.tube.carrier_occupancy, CarrierOccupancy::CappedTube);
            assert_eq!(p.tube.tube_type, TubeType::Greiner);
            assert_eq!(p.tube.sample_id, "TUBE-42");
            assert_eq!(p.tube.sample_priority, SamplePriority::Routine);
            assert_eq!(p.tube.tube_height, 0);
            assert_eq!(p.tube.tube_diameter, 0);
        }
        _ => panic!("wrong variant decoded"),
    }
}

#[test]
fn round_trip_response_fields() {
    let mut response = Message::new(
        0x1234,
        10,
        Payload::AddQueueResponse(AddQueueResponse::new(
            InterfacePositionIndex::IP1,
            "SampleId".to_string(),
            AddQueueCommandStatusValues::CommandOk,
        )),
    );
    response.set_sequence_id(0x5678);
    let frame = response.encode().expect("encodable");
    let decoded = message_factory(&frame).expect("valid frame");

    assert_eq!(decoded.header.sequence_id, 0x5678);
    assert_eq!(decoded.header.return_sequence_id, 0x1234);
    assert_eq!(decoded.header.instrument_id, 10);
    assert_eq!(decoded.header.message_type, MessageType::AddQueueResponse);
    match decoded.message_body {
        Payload::AddQueueResponse(p) => {
            assert_eq!(p.interface_position_index, InterfacePositionIndex::IP1);
            assert_eq!(p.sample_id, "SampleId");
            assert_eq!(
                p.command_status,
                AddQueueCommandStatusValues::CommandOk
            );
        }
        _ => panic!("wrong variant decoded"),
    }
}

#[test]
fn round_trip_non_ascii_sample_id() {
    let tube = sample_tube("prøve-β");
    let mut request = Message::new(
        0,
        1,
        Payload::AddQueueRequest(AddQueueRequest::new(InterfacePositionIndex::IP1, &tube)),
    );
    request.set_sequence_id(7);
    let frame = request.encode().expect("encodable");
    let decoded = message_factory(&frame).expect("valid frame");
    match decoded.message_body {
        Payload::AddQueueRequest(p) => assert_eq!(p.tube.sample_id, "prøve-β"),
        _ => panic!("wrong variant decoded"),
    }
}

#[test]
fn scenario_add_queue_request() {
    // Encode a queue-add request at interface position 1 with sequence id
    // 0x1234, instrument id 10, and the sample identifier "SampleId";
    // decode it and confirm field-for-field equality, then confirm the
    // checksum at the tail against a fresh computation.
    let tube = UrapTube::new(
        CarrierOccupancy::CappedTube,
        TubeType::Greiner,
        "SampleId".to_string(),
        SamplePriority::Routine,
        0,
        0,
    );
    let mut request = Message::new(
        0,
        10,
        Payload::AddQueueRequest(AddQueueRequest::new(InterfacePositionIndex::IP1, &tube)),
    );
    request.set_sequence_id(0x1234);
    let frame = request.encode().expect("encodable");

    // header 18 + payload (1 + 6 + 8) + footer 3
    assert_eq!(frame.len(), 36);

    let decoded = message_factory(&frame).expect("valid frame");
    assert_eq!(decoded.header.sequence_id, 0x1234);
    assert_eq!(decoded.header.return_sequence_id, 0);
    assert_eq!(decoded.header.instrument_id, 10);
    assert_eq!(decoded.header.message_type, MessageType::AddQueueRequest);
    match &decoded.message_body {
        Payload::AddQueueRequest(p) => {
            assert_eq!(p.interface_position_index, InterfacePositionIndex::IP1);
            assert_eq!(p.tube.carrier_occupancy, CarrierOccupancy::CappedTube);
            assert_eq!(p.tube.tube_type, TubeType::Greiner);
            assert_eq!(p.tube.sample_id, "SampleId");
            assert_eq!(p.tube.sample_priority, SamplePriority::Routine);
            assert_eq!(p.tube.tube_height, 0);
            assert_eq!(p.tube.tube_diameter, 0);
        }
        _ => panic!("wrong variant decoded"),
    }

    // Fresh checksum computation over everything ahead of the trailer.
    let bytes: Vec<u8> = frame.to_vec();
    let n = bytes.len();
    let mut sum: u32 = 0;
    for &b in &bytes[..n - 3] {
        sum = (sum + b as u32) % 0x10000;
    }
    let stored = ((bytes[n - 3] as u32) << 8) | bytes[n - 2] as u32;
    assert_eq!(stored, sum);
    assert_eq!(decoded.footer.crc as u32, sum);
    assert_eq!(bytes[n - 1], 0x03);
    assert_eq!(bytes[0], 0x02);
}

#[test]
fn exact_frame_bytes_for_empty_response() {
    // A response with an empty sample identifier gives the smallest frame
    // of that variant; every byte of it, checksum included, is pinned
    // down here.
    let mut response = Message::new(
        0,
        7,
        Payload::AddQueueResponse(AddQueueResponse::new(
            InterfacePositionIndex::IP1,
            String::new(),
            AddQueueCommandStatusValues::CommandOk,
        )),
    );
    response.set_sequence_id(0);
    let frame = response.encode().expect("encodable");
    let expected: Vec<u8> = vec![
        0x02, // start marker
        0x00, 0x18, // message length: 24
        0x00, 0x00, // sequence id
        0x00, 0x00, // return-sequence id
        0x04, 0x06, // message type
        0x00, 0x00, 0x00, 0x00, 0x00, 0x00, 0x00, 0x00, // timestamp
        0x07, // instrument id
        0x01, // interface position
        0x00, // sample id length
        0x00, // command status
        0x00, 0x2C, // checksum: 2 + 0x18 + 4 + 6 + 7 + 1 = 44
        0x03, // end marker
    ];
    assert_eq!(frame.to_vec(), expected);
}

#[test]
fn correlation_matches_and_mismatches() {
    let tube = sample_tube("S1");
    let mut request = Message::new(
        0,
        3,
        Payload::AddQueueRequest(AddQueueRequest::new(InterfacePositionIndex::IP0, &tube)),
    );
    request.set_sequence_id(0x00AA);

    let make_response = |return_sequence_id: u16| {
        Message::new(
            return_sequence_id,
            3,
            Payload::AddQueueResponse(AddQueueResponse::new(
                InterfacePositionIndex::IP0,
                "S1".to_string(),
                AddQueueCommandStatusValues::CommandOk,
            )),
        )
    };

    // Matching return-sequence id and expected tag.
    assert!(request.is_my_response(make_response(0x00AA)));
    // Wrong return-sequence id.
    assert!(!request.is_my_response(make_response(0x00AB)));
    // Right id, wrong variant: a request never answers a request.
    let other_request = Message::new(
        0x00AA,
        3,
        Payload::AddQueueRequest(AddQueueRequest::new(InterfacePositionIndex::IP0, &tube)),
    );
    assert!(!request.is_my_response(other_request));
    // A response expects no answer at all.
    let response = make_response(0x00AA);
    assert!(!response.is_my_response(make_response(0)));
}

#[test]
fn need_response_by_variant() {
    let tube = sample_tube("S");
    let request = Message::new(
        0,
        1,
        Payload::AddQueueRequest(AddQueueRequest::new(InterfacePositionIndex::IP0, &tube)),
    );
    assert!(request.need_response());
    let response = Message::new(
        0,
        1,
        Payload::AddQueueResponse(AddQueueResponse::new(
            InterfacePositionIndex::IP0,
            "S".to_string(),
            AddQueueCommandStatusValues::CommandOk,
        )),
    );
    assert!(!response.need_response());
}
