use emacs_remote::error::ErrorKind;
use emacs_remote::messages::envelope::{
    decode, encode, into_frame, to_value, MessageEnvelope, BUFFER_SIZE,
};
use emacs_remote::messages::index::{IndexRequest, IndexResponse};
use emacs_remote::messages::messagetype::MessageType;

fn pack(value: &rmpv::Value) -> Vec<u8> {
    rmp_serde::to_vec(value).unwrap()
}

#[test]
fn index_request_encodes_to_tagged_array() {
    let request = IndexRequest::new(0, "a".to_string());
    let bytes = encode(&request).unwrap();
    // fixarray of 3: tag 0, prev_hash 0, fixstr "a"
    assert_eq!(bytes, vec![0x93, 0x00, 0x00, 0xa1, 0x61]);
}

#[test]
fn index_response_encodes_to_tagged_array() {
    let response = IndexResponse::new(300);
    let bytes = encode(&response).unwrap();
    // fixarray of 2: tag 0, uint16 300
    assert_eq!(bytes, vec![0x92, 0x00, 0xcd, 0x01, 0x2c]);
}

#[test]
fn index_request_round_trips_through_bytes() {
    let request = IndexRequest::new(17645410072557185842, "/srv/ws/project".to_string());
    let bytes = encode(&request).unwrap();
    let envelope = decode(&bytes).unwrap();
    assert_eq!(envelope.type_tag(), 0);
    assert_eq!(envelope.message_type(), Ok(MessageType::IndexRequest));
    let back: IndexRequest = envelope.decode_payload().unwrap();
    assert_eq!(back.prev_hash, 17645410072557185842);
    assert_eq!(back.index_path, "/srv/ws/project");
}

#[test]
fn index_response_round_trips_through_bytes() {
    let response = IndexResponse::new(u64::MAX);
    let bytes = encode(&response).unwrap();
    let envelope = decode(&bytes).unwrap();
    let back: IndexResponse = envelope.decode_payload().unwrap();
    assert_eq!(back, response);
}

#[test]
fn round_trip_keeps_non_ascii_paths() {
    let request = IndexRequest::new(1, "/home/zoë/проект".to_string());
    let bytes = encode(&request).unwrap();
    let back: IndexRequest = decode(&bytes).unwrap().decode_payload().unwrap();
    assert_eq!(back.index_path, "/home/zoë/проект");
    assert_eq!(back.prev_hash, 1);
}

#[test]
fn to_value_puts_the_tag_in_front_of_the_fields() {
    let value = to_value(&IndexRequest::new(5, "p".to_string()));
    let expected = rmpv::Value::Array(vec![
        rmpv::Value::from(0u64),
        rmpv::Value::from(5u64),
        rmpv::Value::from("p"),
    ]);
    assert_eq!(value, expected);
}

#[test]
fn decode_reads_a_zero_padded_buffer() {
    let mut buffer = encode(&IndexRequest::new(9, "/ws".to_string())).unwrap();
    buffer.resize(BUFFER_SIZE, 0);
    let envelope = decode(&buffer).unwrap();
    let back: IndexRequest = envelope.decode_payload().unwrap();
    assert_eq!(back.prev_hash, 9);
    assert_eq!(back.index_path, "/ws");
}

#[test]
fn decode_ignores_what_lies_beyond_the_buffer_size() {
    let mut buffer = encode(&IndexResponse::new(4)).unwrap();
    buffer.resize(BUFFER_SIZE, 0);
    buffer.extend_from_slice(&[0xc1; 64]);
    let envelope = decode(&buffer).unwrap();
    assert_eq!(envelope.type_tag(), 0);
}

#[test]
fn message_longer_than_the_buffer_is_malformed() {
    let request = IndexRequest::new(1, "x".repeat(2 * BUFFER_SIZE));
    let bytes = encode(&request).unwrap();
    assert!(bytes.len() > BUFFER_SIZE);
    assert_eq!(decode(&bytes).err(), Some(ErrorKind::MalformedEnvelope));
}

#[test]
fn buffer_size_is_1024() {
    assert_eq!(BUFFER_SIZE, 1024);
}

#[test]
fn empty_buffer_is_malformed() {
    assert_eq!(decode(&[]).err(), Some(ErrorKind::MalformedEnvelope));
}

#[test]
fn non_array_is_malformed() {
    assert_eq!(decode(&[0x2a]).err(), Some(ErrorKind::MalformedEnvelope));
    assert_eq!(decode(&pack(&rmpv::Value::from("hello"))).err(), Some(ErrorKind::MalformedEnvelope));
    assert_eq!(decode(&pack(&rmpv::Value::Nil)).err(), Some(ErrorKind::MalformedEnvelope));
}

#[test]
fn empty_array_is_malformed() {
    assert_eq!(decode(&[0x90]).err(), Some(ErrorKind::MalformedEnvelope));
}

#[test]
fn array_without_unsigned_tag_is_malformed() {
    let text_first = rmpv::Value::Array(vec![rmpv::Value::from("0"), rmpv::Value::from(1u64)]);
    assert_eq!(decode(&pack(&text_first)).err(), Some(ErrorKind::MalformedEnvelope));
    let negative_first = rmpv::Value::Array(vec![rmpv::Value::from(-1i64)]);
    assert_eq!(decode(&pack(&negative_first)).err(), Some(ErrorKind::MalformedEnvelope));
    let nested_first = rmpv::Value::Array(vec![rmpv::Value::Array(vec![rmpv::Value::from(0u64)])]);
    assert_eq!(decode(&pack(&nested_first)).err(), Some(ErrorKind::MalformedEnvelope));
}

#[test]
fn truncated_array_is_malformed() {
    // announces three elements, holds one
    assert_eq!(decode(&[0x93, 0x00]).err(), Some(ErrorKind::MalformedEnvelope));
}

#[test]
fn tag_is_reported_when_the_payload_does_not_fit_its_type() {
    let value = rmpv::Value::Array(vec![rmpv::Value::from(0u64), rmpv::Value::from("not a hash")]);
    let envelope = decode(&pack(&value)).unwrap();
    assert_eq!(envelope.type_tag(), 0);
    assert_eq!(envelope.message_type(), Ok(MessageType::IndexRequest));
    assert_eq!(
        envelope.decode_payload::<IndexRequest>().err(),
        Some(ErrorKind::PayloadDecodeError)
    );
}

#[test]
fn tag_is_reported_for_a_tag_outside_the_enumeration() {
    let value = rmpv::Value::Array(vec![rmpv::Value::from(77u64), rmpv::Value::Nil]);
    let envelope = decode(&pack(&value)).unwrap();
    assert_eq!(envelope.type_tag(), 77);
    assert_eq!(envelope.message_type(), Err(ErrorKind::UnknownMessageType));
    assert_eq!(envelope.payload(), &value);
}

#[test]
fn from_value_takes_the_tag_off_an_array() {
    let value = rmpv::Value::Array(vec![rmpv::Value::from(2u64)]);
    let envelope = MessageEnvelope::from_value(value.clone()).unwrap();
    assert_eq!(envelope.type_tag(), 2);
    assert_eq!(envelope.payload(), &value);
    assert_eq!(envelope.message_type(), Ok(MessageType::ShellRequest));
}

#[test]
fn from_value_refuses_what_has_no_tag() {
    assert_eq!(
        MessageEnvelope::from_value(rmpv::Value::from(3u64)).err(),
        Some(ErrorKind::MalformedEnvelope)
    );
    assert_eq!(
        MessageEnvelope::from_value(rmpv::Value::Array(vec![])).err(),
        Some(ErrorKind::MalformedEnvelope)
    );
    assert_eq!(
        MessageEnvelope::from_value(rmpv::Value::Array(vec![rmpv::Value::Boolean(true)])).err(),
        Some(ErrorKind::MalformedEnvelope)
    );
}

#[test]
fn payload_of_wrong_length_is_refused() {
    let short = rmpv::Value::Array(vec![rmpv::Value::from(0u64), rmpv::Value::from(1u64)]);
    let envelope = MessageEnvelope::from_value(short).unwrap();
    assert_eq!(
        envelope.decode_payload::<IndexRequest>().err(),
        Some(ErrorKind::PayloadDecodeError)
    );
    let long = rmpv::Value::Array(vec![
        rmpv::Value::from(0u64),
        rmpv::Value::from(1u64),
        rmpv::Value::from("p"),
        rmpv::Value::Nil,
    ]);
    let envelope = MessageEnvelope::from_value(long).unwrap();
    assert_eq!(
        envelope.decode_payload::<IndexRequest>().err(),
        Some(ErrorKind::PayloadDecodeError)
    );
}

#[test]
fn payload_under_another_tag_is_a_mismatch() {
    let value = rmpv::Value::Array(vec![
        rmpv::Value::from(1u64),
        rmpv::Value::from(1u64),
        rmpv::Value::from("p"),
    ]);
    let envelope = MessageEnvelope::from_value(value).unwrap();
    assert_eq!(envelope.decode_payload::<IndexRequest>().err(), Some(ErrorKind::TypeMismatch));
}

#[test]
fn payload_under_an_unknown_tag_is_unknown() {
    let value = rmpv::Value::Array(vec![rmpv::Value::from(3u64), rmpv::Value::from(1u64)]);
    let envelope = MessageEnvelope::from_value(value).unwrap();
    assert_eq!(
        envelope.decode_payload::<IndexResponse>().err(),
        Some(ErrorKind::UnknownMessageType)
    );
}

#[test]
fn deeply_nested_arrays_are_malformed() {
    // a full buffer of arrays that each announce one element
    let buffer = vec![0x91u8; BUFFER_SIZE];
    assert_eq!(decode(&buffer).err(), Some(ErrorKind::MalformedEnvelope));
    // nested arrays that close, with an array where the tag should be
    let mut closed = vec![0x91u8; 200];
    closed.push(0x00);
    assert_eq!(decode(&closed).err(), Some(ErrorKind::MalformedEnvelope));
}

#[test]
fn into_frame_keeps_the_bytes_of_a_success() {
    assert_eq!(into_frame(Ok(vec![0x92, 0x00, 0x07])), Some(vec![0x92, 0x00, 0x07]));
    assert_eq!(into_frame(Ok(vec![])), Some(vec![]));
}

#[test]
fn into_frame_gives_nothing_for_a_failure() {
    assert_eq!(into_frame(Err(rmp_serde::encode::Error::UnknownLength)), None);
    assert_eq!(into_frame(Err(rmp_serde::encode::Error::DepthLimitExceeded)), None);
}
