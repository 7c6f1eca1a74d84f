use libjdb::error::{protocol_err, JdwpError};
use libjdb::frame::{check_handshake, handshake_token, read_reply, reply_remaining_len, JdwpConnection};
use libjdb::virtual_machine::IdSizesReply;

fn sizes(n: i32) -> IdSizesReply {
    IdSizesReply {
        field_id_size: n,
        method_id_size: n,
        object_id_size: n,
        reference_type_id_size: n,
        frame_id_size: n,
    }
}

fn reply(id: u32, flags: u8, code: u16, body: &[u8]) -> Vec<u8> {
    let len = (body.len() + 11) as u32;
    let mut f = len.to_be_bytes().to_vec();
    f.extend_from_slice(&id.to_be_bytes());
    f.push(flags);
    f.extend_from_slice(&code.to_be_bytes());
    f.extend_from_slice(body);
    f
}

#[test]
fn handshake_token_is_ascii() {
    assert_eq!(handshake_token(), b"JDWP-Handshake".to_vec());
    assert_eq!(handshake_token().len(), 14);
}

#[test]
fn handshake_echo_is_accepted() {
    assert_eq!(check_handshake(b"JDWP-Handshake"), Ok(()));
    let conn = JdwpConnection::new(b"JDWP-Handshake").unwrap();
    assert_eq!(conn.next_id(), 0);
    assert!(!conn.is_ready());
}

#[test]
fn handshake_mismatch_fails() {
    assert_eq!(check_handshake(b"JDWP-Handshakx"), Err(JdwpError::HandshakeFailed));
    assert_eq!(check_handshake(b"JDWP-Hand"), Err(JdwpError::HandshakeFailed));
    assert_eq!(check_handshake(b""), Err(JdwpError::HandshakeFailed));
    assert!(matches!(JdwpConnection::new(b"HTTP/1.1 400 Bad"), Err(JdwpError::HandshakeFailed)));
}

#[test]
fn request_ids_start_at_zero_and_increase() {
    let mut conn = JdwpConnection::new(b"JDWP-Handshake").unwrap();
    let (id0, f0) = conn.frame_request(1, 7, &[]).unwrap();
    assert_eq!(id0, 0);
    assert_eq!(f0, vec![0, 0, 0, 11, 0, 0, 0, 0, 0, 1, 7]);
    assert_eq!(conn.set_id_sizes(&sizes(8)), Ok(()));
    let (id1, f1) = conn.frame_request(11, 1, &[9, 8]).unwrap();
    assert_eq!(id1, 1);
    assert_eq!(f1, vec![0, 0, 0, 13, 0, 0, 0, 1, 0, 11, 1, 9, 8]);
    let (id2, _) = conn.frame_request(1, 4, &[]).unwrap();
    assert_eq!(id2, 2);
    assert_eq!(conn.next_id(), 3);
}

#[test]
fn commands_wait_for_id_sizes() {
    let mut conn = JdwpConnection::new(b"JDWP-Handshake").unwrap();
    assert_eq!(conn.frame_request(1, 4, &[]), Err(JdwpError::NotReady));
    assert_eq!(conn.next_id(), 0);
}

#[test]
fn only_eight_byte_ids_are_supported() {
    let mut conn = JdwpConnection::new(b"JDWP-Handshake").unwrap();
    assert_eq!(conn.set_id_sizes(&sizes(4)), Err(JdwpError::UnsupportedIdSize));
    let mut mixed = sizes(8);
    mixed.frame_id_size = 4;
    assert_eq!(conn.set_id_sizes(&mixed), Err(JdwpError::UnsupportedIdSize));
    assert!(!conn.is_ready());
}

#[test]
fn reply_body_is_returned() {
    assert_eq!(read_reply(3, &reply(3, 0x80, 0, &[1, 2, 3])), Ok(vec![1, 2, 3]));
    assert_eq!(read_reply(3, &reply(3, 0x80, 0, &[])), Ok(vec![]));
}

#[test]
fn error_code_is_reported_without_reading_body() {
    let garbage = [0xFF, 0xFF, 0xFF, 0xFF, 0x01];
    assert_eq!(read_reply(0, &reply(0, 0x80, 35, &garbage)), Err(JdwpError::ErrorCode(35)));
    assert_eq!(read_reply(0, &reply(0, 0x80, 35, &[])), Err(JdwpError::ErrorCode(35)));
}

#[test]
fn malformed_replies_are_rejected() {
    assert_eq!(read_reply(1, &reply(2, 0x80, 0, &[])), Err(JdwpError::IdMismatch { expected: 1, found: 2 }));
    assert_eq!(read_reply(1, &reply(1, 0x00, 0, &[])), Err(JdwpError::NotAReply));
    let mut bad = reply(1, 0x80, 0, &[5]);
    bad.push(0);
    assert_eq!(read_reply(1, &bad), Err(JdwpError::MalformedFrame));
    assert_eq!(read_reply(1, &[0, 0, 0, 4]), Err(JdwpError::MalformedFrame));
}

#[test]
fn broken_framing_ends_the_connection() {
    let mut conn = JdwpConnection::new(b"JDWP-Handshake").unwrap();
    let (id, _) = conn.frame_request(1, 7, &[]).unwrap();
    assert_eq!(conn.accept_reply(id, &reply(id + 5, 0x80, 0, &[])), Err(JdwpError::IdMismatch { expected: 0, found: 5 }));
    assert!(conn.has_failed());
    assert_eq!(conn.frame_request(1, 7, &[]), Err(JdwpError::ConnectionFailed));
}

#[test]
fn error_code_keeps_the_connection() {
    let mut conn = JdwpConnection::new(b"JDWP-Handshake").unwrap();
    let (id, _) = conn.frame_request(1, 7, &[]).unwrap();
    assert_eq!(conn.accept_reply(id, &reply(id, 0x80, 35, &[1, 2])), Err(JdwpError::ErrorCode(35)));
    assert!(!conn.has_failed());
    let (id, _) = conn.frame_request(1, 7, &[]).unwrap();
    assert_eq!(conn.accept_reply(id, &reply(id, 0x80, 0, &[7])), Ok(vec![7]));
    conn.mark_failed();
    assert_eq!(conn.frame_request(1, 7, &[]), Err(JdwpError::ConnectionFailed));
}

#[test]
fn remaining_length_after_length_field() {
    assert_eq!(reply_remaining_len(&[0, 0, 0, 11]), Ok(7));
    assert_eq!(reply_remaining_len(&[0, 0, 1, 0]), Ok(252));
    assert_eq!(reply_remaining_len(&[0, 0, 0, 10]), Err(JdwpError::MalformedFrame));
}

#[test]
fn protocol_error_message() {
    match protocol_err("5 is not a valid Type Tag") {
        JdwpError::Protocol(m) => assert_eq!(m, "JDWP Protocol Error: 5 is not a valid Type Tag"),
        other => panic!("unexpected {:?}", other),
    }
}
