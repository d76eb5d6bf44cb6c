use bytes::{BufMut, BytesMut};
use tokio_nats::driver::{after_fill, connector_step, parse_op, poll_frame};
use tokio_nats::{ClientOp, ConnectorAction, ConnectorEvent, ReadStep};

#[test]
fn nothing_is_parsed_from_a_buffer() {
    let mut buffer = BytesMut::new();
    assert!(parse_op(&buffer).is_none());
    buffer.put_slice(b"PING\r\n");
    assert!(parse_op(&buffer).is_none());
}

#[test]
fn an_unparsed_buffer_asks_for_more() {
    let mut buffer = BytesMut::new();
    assert!(matches!(poll_frame(&buffer), ReadStep::Fill));
    buffer.put_slice(b"MSG foo 1 3\r\n");
    assert!(matches!(poll_frame(&buffer), ReadStep::Fill));
}

#[test]
fn end_of_stream_with_empty_buffer_is_a_clean_close() {
    let buffer = BytesMut::new();
    assert!(matches!(after_fill(0, &buffer), ReadStep::Closed));
}

#[test]
fn end_of_stream_with_leftover_bytes_is_a_reset() {
    let mut buffer = BytesMut::with_capacity(16);
    buffer.put_slice(b"PI");
    assert!(matches!(after_fill(0, &buffer), ReadStep::Reset));
}

#[test]
fn a_successful_read_parses_again() {
    let mut buffer = BytesMut::new();
    buffer.put_slice(b"PONG\r\n");
    assert!(matches!(after_fill(6, &buffer), ReadStep::Fill));
}

#[test]
fn connector_writes_what_it_is_handed() {
    let action = connector_step(ConnectorEvent::Outgoing(Some(ClientOp::Unsubscribe { sid: 3 })));
    assert!(matches!(action, ConnectorAction::Write(ClientOp::Unsubscribe { sid: 3 })));
}

#[test]
fn connector_stops_when_senders_are_gone() {
    assert!(matches!(connector_step(ConnectorEvent::Outgoing(None)), ConnectorAction::Shutdown));
}

#[test]
fn connector_goes_on_after_failures_and_reads() {
    assert!(matches!(connector_step(ConnectorEvent::WriteFailed), ConnectorAction::Continue));
    assert!(matches!(connector_step(ConnectorEvent::Incoming), ConnectorAction::Continue));
}
