use tokio_nats::subscription::SUBSCRIBER_QUEUE;
use tokio_nats::{ClientOp, Subscription, SubscriptionContext};

#[test]
fn context_starts_at_zero() {
    let ctx = SubscriptionContext::new();
    assert_eq!(ctx.next_id(), 0);
}

#[test]
fn insert_hands_out_consecutive_ids() {
    let mut ctx = SubscriptionContext::new();
    let (sender, _receiver) = tokio::sync::mpsc::channel(4);
    let first = ctx.insert(Subscription { sender: sender.clone() });
    let second = ctx.insert(Subscription { sender });
    assert_eq!(first, 0);
    assert_eq!(second, 1);
    assert_eq!(ctx.next_id(), 2);
}

#[test]
fn subscribe_returns_the_sub_operation_and_a_subscriber() {
    let mut ctx = SubscriptionContext::new();
    let (op, subscriber) = ctx.subscribe(String::from("foo"));
    match op {
        ClientOp::Subscribe { sid, subject } => {
            assert_eq!(sid, 0);
            assert_eq!(subject, "foo");
        }
        _ => panic!("expected a subscribe operation"),
    }
    assert_eq!(subscriber.id(), 0);
    let (op2, subscriber2) = ctx.subscribe(String::from("bar"));
    assert!(matches!(op2, ClientOp::Subscribe { sid: 1, .. }));
    assert_eq!(subscriber2.id(), 1);
    assert_eq!(ctx.next_id(), 2);
}

#[test]
fn subscriber_queue_has_the_stated_bound() {
    let mut ctx = SubscriptionContext::new();
    let (_op, mut subscriber) = ctx.subscribe(String::from("foo"));
    assert_eq!(SUBSCRIBER_QUEUE, 16);
    assert_eq!(subscriber.receiver_mut().max_capacity(), 16);
}

#[test]
fn closing_a_subscriber_closes_its_queue() {
    let mut ctx = SubscriptionContext::new();
    let (_op, mut subscriber) = ctx.subscribe(String::from("foo"));
    assert!(!subscriber.receiver_mut().is_closed());
    subscriber.close();
    assert!(subscriber.receiver_mut().is_closed());
    assert_eq!(subscriber.id(), 0);
    assert_eq!(subscriber.receiver_mut().max_capacity(), 16);
}
