use emacs_remote::error::ErrorKind;
use emacs_remote::messages::index::{IndexRequest, IndexResponse};
use emacs_remote::messages::messagetype::{MessageType, MessageTypeTrait};

#[test]
fn tags_are_fixed() {
    assert_eq!(MessageType::IndexRequest.tag(), 0);
    assert_eq!(MessageType::FileRequest.tag(), 1);
    assert_eq!(MessageType::ShellRequest.tag(), 2);
}

#[test]
fn every_type_is_found_by_its_tag() {
    for t in [MessageType::IndexRequest, MessageType::FileRequest, MessageType::ShellRequest] {
        assert_eq!(MessageType::from_tag(t.tag()), Ok(t));
    }
}

#[test]
fn tag_outside_the_enumeration_is_unknown() {
    assert_eq!(MessageType::from_tag(3), Err(ErrorKind::UnknownMessageType));
    assert_eq!(MessageType::from_tag(u64::MAX), Err(ErrorKind::UnknownMessageType));
}

#[test]
fn try_from_resolves_like_from_tag() {
    assert_eq!(MessageType::try_from(0u64), Ok(MessageType::IndexRequest));
    assert_eq!(MessageType::try_from(2u64), Ok(MessageType::ShellRequest));
    assert_eq!(MessageType::try_from(9u64), Err(ErrorKind::UnknownMessageType));
}

#[test]
fn only_the_index_request_is_wired() {
    assert!(MessageType::IndexRequest.is_wired());
    assert!(!MessageType::FileRequest.is_wired());
    assert!(!MessageType::ShellRequest.is_wired());
}

#[test]
fn message_structs_name_their_type() {
    assert_eq!(IndexRequest::messagetype(), MessageType::IndexRequest);
    assert_eq!(IndexResponse::messagetype(), MessageType::IndexRequest);
}

#[test]
fn fields_of_an_index_request() {
    let fields = IndexRequest::new(3, "/ws".to_string()).to_fields();
    assert_eq!(fields, vec![rmpv::Value::from(3u64), rmpv::Value::from("/ws")]);
    let back = IndexRequest::from_fields(&fields).unwrap();
    assert_eq!(back.prev_hash, 3);
    assert_eq!(back.index_path, "/ws");
}

#[test]
fn fields_of_an_index_response() {
    let fields = IndexResponse::new(11).to_fields();
    assert_eq!(fields, vec![rmpv::Value::from(11u64)]);
    assert_eq!(IndexResponse::from_fields(&fields), Some(IndexResponse::new(11)));
}

#[test]
fn fields_of_another_shape_are_refused() {
    assert!(IndexRequest::from_fields(&[]).is_none());
    assert!(IndexRequest::from_fields(&[rmpv::Value::from("/ws"), rmpv::Value::from(3u64)]).is_none());
    assert!(IndexRequest::from_fields(&[rmpv::Value::from(-3i64), rmpv::Value::from("/ws")]).is_none());
    assert!(IndexRequest::from_fields(&[rmpv::Value::from(3u64), rmpv::Value::Binary(vec![47])]).is_none());
    assert!(IndexResponse::from_fields(&[]).is_none());
    assert!(IndexResponse::from_fields(&[rmpv::Value::from(1u64), rmpv::Value::from(2u64)]).is_none());
    assert!(IndexResponse::from_fields(&[rmpv::Value::Nil]).is_none());
}
