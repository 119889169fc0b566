use awstream::errors::Error;
use awstream::{AsCodec, AsDatum, AsDatumType, ReceiverReport};

#[test]
fn encode_decode_works() {
    let d = AsDatum::new(0, 0, String::from("Hello").into_bytes());
    let expected_len = d.net_len();
    let expected = d.clone();
    let mut buf = bytes::BytesMut::new();
    let mut codec = AsCodec::default();
    codec.encode(d, &mut buf).unwrap();

    // Check the length is the same
    assert_eq!(buf.len(), expected_len);

    // Check that decode is succesful length
    let decoded = codec.decode(&mut buf);
    assert_eq!(decoded.unwrap().unwrap(), expected);
}

#[test]
fn decode_partial_length_needs_more_without_consuming() {
    let mut codec = AsCodec::default();
    let mut buf = bytes::BytesMut::new();
    buf.extend_from_slice(&[0u8, 0, 0, 0, 0]);
    let r = codec.decode(&mut buf).unwrap();
    assert!(r.is_none());
    // Fewer than eight buffered bytes: nothing was consumed.
    assert_eq!(buf.len(), 5);
}

#[test]
fn decode_short_payload_needs_more_and_keeps_state() {
    let d = AsDatum::new(1, 2, vec![7u8; 100]);
    let expected = d.clone();
    let mut full = bytes::BytesMut::new();
    let mut codec = AsCodec::default();
    codec.encode(d, &mut full).unwrap();
    let total = full.len();

    // Feed the length prefix and two payload bytes only.
    let mut buf = bytes::BytesMut::new();
    buf.extend_from_slice(&full.as_ref()[0..10]);
    let mut decoder = AsCodec::default();
    let r = decoder.decode(&mut buf).unwrap();
    assert!(r.is_none());
    // The length was consumed; the partial payload stays buffered.
    assert_eq!(buf.len(), 2);

    // A second call with still too little consumes nothing more.
    let r = decoder.decode(&mut buf).unwrap();
    assert!(r.is_none());
    assert_eq!(buf.len(), 2);

    // The rest arrives; the datum decodes across the calls.
    buf.extend_from_slice(&full.as_ref()[10..total]);
    let r = decoder.decode(&mut buf).unwrap();
    assert_eq!(r.unwrap(), expected);
    assert_eq!(buf.len(), 0);
}

#[test]
fn live_frame_encodes_to_header_plus_serialized_size() {
    let d = AsDatum::new(3, 42, vec![0u8; 1024]);
    let serialized = d.len();
    assert_eq!(serialized, 33 + 1024);
    let expected = d.clone();
    let mut buf = bytes::BytesMut::new();
    let mut codec = AsCodec::default();
    codec.encode(d, &mut buf).unwrap();
    assert_eq!(buf.len(), 8 + serialized);

    let decoded = codec.decode(&mut buf).unwrap().unwrap();
    assert_eq!(decoded.datum_type(), AsDatumType::Live(3, 42));
    assert_eq!(decoded, expected);
}

#[test]
fn all_datum_kinds_round_trip() {
    let mut codec = AsCodec::default();
    let report = ReceiverReport::new(12, 34, 56);
    let datums = vec![
        AsDatum::new(5, 9, b"live payload".to_vec()),
        AsDatum::bw_probe(64),
        AsDatum::latency_probe(),
        AsDatum::ack(report).unwrap(),
    ];
    for d in datums {
        let expected = d.clone();
        let mut buf = bytes::BytesMut::new();
        codec.encode(d, &mut buf).unwrap();
        let decoded = codec.decode(&mut buf).unwrap().unwrap();
        assert_eq!(decoded, expected);
        assert_eq!(buf.len(), 0);
    }
}

#[test]
fn decode_malformed_payload_is_a_decode_error() {
    let mut codec = AsCodec::default();
    let mut buf = bytes::BytesMut::new();
    // A frame announcing 17 bytes whose tag (200) denotes no datum kind.
    buf.extend_from_slice(&[0u8, 0, 0, 0, 0, 0, 0, 17]);
    buf.extend_from_slice(&[200u8; 17]);
    let r = codec.decode(&mut buf);
    assert_eq!(r.unwrap_err(), Error::DecodeError);
}

#[test]
fn receiver_report_round_trips_through_memory() {
    let report = ReceiverReport::new(250, 4000, 4500);
    let mem = report.to_mem().unwrap();
    assert_eq!(mem.len(), 24);
    let back = ReceiverReport::from_mem(&mem).unwrap();
    assert_eq!(back, report);
}

#[test]
fn receiver_report_with_wrong_length_is_a_decode_error() {
    let mem = vec![0u8; 23];
    assert_eq!(ReceiverReport::from_mem(&mem).unwrap_err(), Error::DecodeError);
}

#[test]
fn ack_carries_the_encoded_report() {
    let report = ReceiverReport::new(1, 2, 3);
    let d = AsDatum::ack(report).unwrap();
    assert_eq!(d.datum_type(), AsDatumType::ReceiverCongest);
    assert_eq!(ReceiverReport::from_mem(&d.mem).unwrap(), report);
}
