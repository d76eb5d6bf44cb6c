use bytes::Bytes;
use tokio_nats::protocol::{connect_command, encode_client_op, format_decimal, publish_header};
use tokio_nats::ClientOp;

#[test]
fn publish_frame_carries_length_and_payload() {
    let op = ClientOp::Publish { subject: String::from("foo"), payload: Bytes::from("bar") };
    assert_eq!(encode_client_op(&op), b"PUB foo 3\r\nbar\r\n".to_vec());
}

#[test]
fn publish_frame_with_empty_payload() {
    let op = ClientOp::Publish { subject: String::from("events.data"), payload: Bytes::new() };
    assert_eq!(encode_client_op(&op), b"PUB events.data 0\r\n\r\n".to_vec());
}

#[test]
fn publish_frame_with_multi_digit_length() {
    let payload = Bytes::from(vec![7u8; 1234]);
    let op = ClientOp::Publish { subject: String::from("a.b"), payload };
    let frame = encode_client_op(&op);
    let header = b"PUB a.b 1234\r\n";
    assert_eq!(&frame[..header.len()], &header[..]);
    assert_eq!(frame.len(), header.len() + 1234 + 2);
    assert!(frame[header.len()..header.len() + 1234].iter().all(|b| *b == 7));
    assert_eq!(&frame[frame.len() - 2..], b"\r\n");
}

#[test]
fn publish_frame_with_utf8_subject() {
    let op = ClientOp::Publish { subject: String::from("caf\u{e9}"), payload: Bytes::from("x") };
    assert_eq!(encode_client_op(&op), b"PUB caf\xc3\xa9 1\r\nx\r\n".to_vec());
}

#[test]
fn subscribe_frame() {
    let op = ClientOp::Subscribe { sid: 5, subject: String::from("foo") };
    assert_eq!(encode_client_op(&op), b"SUB foo 5\r\n".to_vec());
}

#[test]
fn unsubscribe_frame() {
    let op = ClientOp::Unsubscribe { sid: 42 };
    assert_eq!(encode_client_op(&op), b"UNSUB 42\r\n".to_vec());
}

#[test]
fn ping_and_pong_frames() {
    assert_eq!(encode_client_op(&ClientOp::Ping), b"PING\r\n".to_vec());
    assert_eq!(encode_client_op(&ClientOp::Pong), b"PONG\r\n".to_vec());
}

#[test]
fn decimal_rendering() {
    assert_eq!(format_decimal(0), b"0".to_vec());
    assert_eq!(format_decimal(9), b"9".to_vec());
    assert_eq!(format_decimal(10), b"10".to_vec());
    assert_eq!(format_decimal(1000007), b"1000007".to_vec());
    assert_eq!(format_decimal(u64::MAX), b"18446744073709551615".to_vec());
}

#[test]
fn decimal_rendering_matches_format() {
    for n in [1u64, 12, 99, 100, 255, 4096, 65535, 1 << 40] {
        assert_eq!(format_decimal(n), format!("{}", n).into_bytes());
    }
}

#[test]
fn publish_header_bytes() {
    assert_eq!(publish_header("foo"), b"PUB foo ".to_vec());
    assert_eq!(publish_header(""), b"PUB  ".to_vec());
}

#[test]
fn connect_line() {
    assert_eq!(
        connect_command(),
        b"CONNECT { \"no_responders\": true, \"headers\": true, \"verbose\": false, \"pedantic\": false }\r\n".to_vec()
    );
}

#[test]
fn default_port() {
    assert_eq!(tokio_nats::DEFAULT_PORT, "4222");
}
