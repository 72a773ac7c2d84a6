use emacs_remote::dispatch::{dispatch, Request, SessionAction, SessionEvent};
use emacs_remote::error::ErrorKind;
use emacs_remote::messages::envelope::{encode, BUFFER_SIZE};
use emacs_remote::messages::index::{IndexRequest, IndexResponse};
use emacs_remote::structs::client::ClientDaemon;

fn client() -> ClientDaemon {
    ClientDaemon::new(
        "/srv/ws".to_string(),
        "/home/me/.emacs_remote/client".to_string(),
        "9131".to_string(),
        "9130".to_string(),
    )
}

#[test]
fn new_client_has_seen_no_index() {
    let daemon = client();
    assert_eq!(daemon.index_hash(), 0);
    assert_eq!(daemon.workspace, "/srv/ws");
    assert_eq!(daemon.client_path, "/home/me/.emacs_remote/client");
}

#[test]
fn addresses_are_on_localhost() {
    let daemon = client();
    assert_eq!(daemon.server_address(), "localhost:9130");
    assert_eq!(daemon.listen_address(), "localhost:9131");
}

#[test]
fn update_index_hash_sets_the_fingerprint() {
    let mut daemon = client();
    daemon.update_index_hash(42);
    assert_eq!(daemon.index_hash(), 42);
    daemon.update_index_hash(u64::MAX);
    assert_eq!(daemon.index_hash(), u64::MAX);
    assert_eq!(daemon.workspace, "/srv/ws");
}

#[test]
fn fingerprint_moves_forward_under_rising_updates() {
    let mut daemon = client();
    let mut last = daemon.index_hash();
    for hash in [0u64, 3, 3, 10, 1 << 40] {
        daemon.update_index_hash(hash);
        assert!(daemon.index_hash() >= last);
        last = daemon.index_hash();
    }
    assert_eq!(last, 1 << 40);
}

#[test]
fn update_with_a_lower_fingerprint_leaves_it() {
    let mut daemon = client();
    daemon.update_index_hash(5);
    assert_eq!(daemon.index_hash(), 5);
    daemon.update_index_hash(3);
    assert_eq!(daemon.index_hash(), 5);
    daemon.update_index_hash(0);
    assert_eq!(daemon.index_hash(), 5);
    daemon.update_index_hash(5);
    assert_eq!(daemon.index_hash(), 5);
    daemon.update_index_hash(6);
    assert_eq!(daemon.index_hash(), 6);
    assert_eq!(daemon.workspace, "/srv/ws");
    assert_eq!(daemon.client_path, "/home/me/.emacs_remote/client");
    assert_eq!(daemon.server_address(), "localhost:9130");
}

#[test]
fn fingerprint_never_decreases_over_a_mixed_run() {
    let mut daemon = client();
    let mut last = daemon.index_hash();
    let mut highest = last;
    for hash in [7u64, 2, 9, 9, 0, u64::MAX, 1, u64::MAX - 1] {
        daemon.update_index_hash(hash);
        highest = highest.max(hash);
        assert!(daemon.index_hash() >= last);
        assert_eq!(daemon.index_hash(), highest);
        last = daemon.index_hash();
    }
    assert_eq!(last, u64::MAX);
}

#[test]
fn server_send_hands_back_the_encoded_message() {
    let mut daemon = client();
    let request = IndexRequest::new(0, "/srv/ws".to_string());
    let bytes = daemon.server_send(&request).unwrap();
    assert_eq!(bytes, encode(&request).unwrap());
    assert_eq!(&bytes[..3], &[0x93, 0x00, 0x00]);
    assert_eq!(daemon.index_hash(), 0);
}

#[test]
fn server_recv_reads_a_reply_of_the_expected_type() {
    let mut daemon = client();
    let reply = encode(&IndexResponse::new(77)).unwrap();
    let response: IndexResponse = daemon.server_recv(&reply).unwrap();
    assert_eq!(response.hash, 77);
    // receiving alone does not move the fingerprint
    assert_eq!(daemon.index_hash(), 0);
}

#[test]
fn server_recv_refuses_a_reply_of_another_type() {
    let mut daemon = client();
    daemon.update_index_hash(5);
    let other = rmp_serde::to_vec(&rmpv::Value::Array(vec![
        rmpv::Value::from(1u64),
        rmpv::Value::from(77u64),
    ]))
    .unwrap();
    assert_eq!(daemon.server_recv::<IndexResponse>(&other).err(), Some(ErrorKind::TypeMismatch));
    assert_eq!(daemon.index_hash(), 5);
}

#[test]
fn server_recv_reports_every_failure_by_its_kind() {
    let mut daemon = client();
    daemon.update_index_hash(9);
    assert_eq!(
        daemon.server_recv::<IndexResponse>(&[0xc0]).err(),
        Some(ErrorKind::MalformedEnvelope)
    );
    assert_eq!(
        daemon.server_recv::<IndexResponse>(&[0x92, 0x2a, 0x01]).err(),
        Some(ErrorKind::UnknownMessageType)
    );
    assert_eq!(
        daemon.server_recv::<IndexResponse>(&[0x92, 0x00, 0xa1, 0x61]).err(),
        Some(ErrorKind::PayloadDecodeError)
    );
    assert_eq!(daemon.index_hash(), 9);
}

#[test]
fn listen_decides_like_any_session() {
    let mut daemon = client();
    let bytes = encode(&IndexRequest::new(1, "/ws".to_string())).unwrap();
    match daemon.listen(&SessionEvent::Received(bytes)) {
        SessionAction::Handle(Request::Index(request)) => assert_eq!(request.index_path, "/ws"),
        other => panic!("session answered {:?}", other),
    }
    assert!(matches!(
        daemon.listen(&SessionEvent::Received(vec![0x91, 0x01])),
        SessionAction::Drop(ErrorKind::UnsupportedMessageType)
    ));
    assert!(matches!(
        daemon.listen(&SessionEvent::ReadFailed),
        SessionAction::Drop(ErrorKind::TransportError)
    ));
    assert!(matches!(
        daemon.listen(&SessionEvent::SocketFailed),
        SessionAction::Stop(ErrorKind::TransportError)
    ));
    assert_eq!(daemon.index_hash(), 0);
}

#[test]
fn index_exchange_end_to_end() {
    let mut daemon = client();

    // the client asks
    let request = IndexRequest::new(0, "/srv/ws".to_string());
    let mut sent = daemon.server_send(&request).unwrap();
    sent.resize(BUFFER_SIZE, 0);

    // the server routes the request to the index handler, which answers
    let hash: u64 = 0xfeed_beef_0042;
    let reply = match dispatch(&sent) {
        Ok(Request::Index(received)) => {
            assert_eq!(received.prev_hash, 0);
            assert_eq!(received.index_path, "/srv/ws");
            encode(&IndexResponse::new(hash)).unwrap()
        }
        other => panic!("routed to {:?}", other),
    };

    // the client checks the reply and records the fingerprint
    assert_eq!(daemon.index_hash(), 0);
    let response: IndexResponse = daemon.server_recv(&reply).unwrap();
    daemon.update_index_hash(response.hash);
    assert_eq!(daemon.index_hash(), hash);
}
