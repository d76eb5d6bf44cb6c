use bytes::Bytes;
use tokio_nats::client::{Message, SUBSCRIPTION_QUEUE};

#[test]
fn client_message_clones_subject_and_payload() {
    let message = Message { subject: String::from("foo"), payload: Bytes::from("bar") };
    let copy = message.clone();
    assert_eq!(copy.subject, "foo");
    assert_eq!(&copy.payload[..], b"bar");
}

#[test]
fn client_subscription_queue_size() {
    assert_eq!(SUBSCRIPTION_QUEUE, 32);
}
