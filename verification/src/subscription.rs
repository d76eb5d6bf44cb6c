//! Subscription bookkeeping of the channel-based client: each subscription gets a
//! fresh id and a bounded queue of messages.

use crate::protocol::ClientOp;
use crate::tokio_spec::{
    close_message_receiver, message_channel, message_channel_bound, message_receiver_channel,
    message_receiver_closed, message_sender_channel,
};
use bytes::Bytes;
use std::collections::HashMap;
use tokio::sync::mpsc;
use vstd::prelude::*;

verus! {

broadcast use vstd::std_specs::hash::group_hash_axioms;

/// The number of messages that a subscriber's queue holds before its sender waits.
pub const SUBSCRIBER_QUEUE: usize = 16;

/// A message delivered to a subscriber.
#[derive(Debug)]
pub struct Message {
    subject: String,
    payload: Bytes,
}

/// The sending side of one subscription's queue.
pub struct Subscription {
    pub sender: mpsc::Sender<Message>,
}

/// The subscriptions of one connection, keyed by their ids.
pub struct SubscriptionContext {
    next_id: u64,
    subscription_map: HashMap<u64, Subscription>,
}

impl SubscriptionContext {
    /// The id that the next subscription gets.
    pub closed spec fn next_sid(&self) -> u64 {
        self.next_id
    }

    /// The subscriptions, by id.
    pub closed spec fn subscriptions(&self) -> Map<u64, Subscription> {
        self.subscription_map@
    }

    /// Every id in use was handed out before the next one.
    pub open spec fn ids_below_next(&self) -> bool {
        forall|sid: u64| #[trigger] self.subscriptions().contains_key(sid) ==> sid < self.next_sid()
    }

    /// The map is finite and every id in use was handed out before the next one.
    #[verifier::type_invariant]
    closed spec fn wf(&self) -> bool {
        &&& self.subscription_map@.dom().finite()
        &&& forall|sid: u64| #[trigger] self.subscription_map@.contains_key(sid) ==> sid < self.next_id
    }

    /// The id that the next subscription gets is not in use.
    pub proof fn lemma_next_id_is_fresh(&self)
        requires
            self.ids_below_next(),
        ensures
            !self.subscriptions().contains_key(self.next_sid()),
    {
    }

    /// An empty context whose first id is 0.
    pub fn new() -> (ctx: SubscriptionContext)
        ensures
            ctx.next_sid() == 0,
            ctx.subscriptions() == Map::<u64, Subscription>::empty(),
            ctx.ids_below_next(),
    {
        SubscriptionContext { next_id: 0, subscription_map: HashMap::new() }
    }

    /// The id that the next subscription gets.
    pub fn next_id(&self) -> (sid: u64)
        ensures
            sid == self.next_sid(),
    {
        self.next_id
    }

    /// Stores `subscription` under a fresh id and returns that id.
    pub fn insert(&mut self, subscription: Subscription) -> (sid: u64)
        requires
            old(self).next_sid() < u64::MAX,
        ensures
            sid == old(self).next_sid(),
            !old(self).subscriptions().contains_key(sid),
            final(self).next_sid() == sid + 1,
            final(self).subscriptions() == old(self).subscriptions().insert(sid, subscription),
            final(self).subscriptions().len() == old(self).subscriptions().len() + 1,
            final(self).ids_below_next(),
    {
        proof {
            use_type_invariant(&*self);
        }
        let id = self.next_id;
        self.next_id = self.next_id + 1;
        let mut map: HashMap<u64, Subscription> = HashMap::new();
        std::mem::swap(&mut map, &mut self.subscription_map);
        map.insert(id, subscription);
        std::mem::swap(&mut map, &mut self.subscription_map);
        proof {
            use_type_invariant(&*self);
        }
        id
    }

    /// Opens a subscription to `subject`: a queue of `SUBSCRIBER_QUEUE` messages whose
    /// sending side is stored under a fresh id, the `SUB` operation to send for it, and
    /// the subscriber that receives from the queue.
    pub fn subscribe(&mut self, subject: String) -> (opened: (ClientOp, Subscriber))
        requires
            old(self).next_sid() < u64::MAX,
        ensures
            opened.0 == (ClientOp::Subscribe { sid: old(self).next_sid(), subject }),
            opened.1.sid() == old(self).next_sid(),
            message_channel_bound(opened.1.receiver()) == SUBSCRIBER_QUEUE,
            !message_receiver_closed(opened.1.receiver()),
            !old(self).subscriptions().contains_key(old(self).next_sid()),
            final(self).subscriptions().contains_key(old(self).next_sid()),
            final(self).subscriptions().remove(old(self).next_sid()) == old(self).subscriptions(),
            message_sender_channel(final(self).subscriptions()[old(self).next_sid()].sender)
                == message_receiver_channel(opened.1.receiver()),
            final(self).next_sid() == old(self).next_sid() + 1,
            final(self).ids_below_next(),
    {
        proof {
            use_type_invariant(&*self);
        }
        let (sender, receiver) = message_channel(SUBSCRIBER_QUEUE);
        let sid = self.insert(Subscription { sender });
        proof {
            assert(self.subscriptions().remove(sid) =~= old(self).subscriptions());
        }
        (ClientOp::Subscribe { sid, subject }, Subscriber::new(sid, receiver))
    }
}

/// The receiving side of a subscription.
pub struct Subscriber {
    sid: u64,
    receiver: mpsc::Receiver<Message>,
}

impl Subscriber {
    /// The subscription's id.
    pub closed spec fn sid(&self) -> u64 {
        self.sid
    }

    /// The queue this subscriber receives from.
    pub closed spec fn receiver(&self) -> mpsc::Receiver<Message> {
        self.receiver
    }

    fn new(sid: u64, receiver: mpsc::Receiver<Message>) -> (s: Subscriber)
        ensures
            s.sid() == sid,
            s.receiver() == receiver,
    {
        Subscriber { sid, receiver }
    }

    /// The subscription's id.
    pub fn id(&self) -> (sid: u64)
        ensures
            sid == self.sid(),
    {
        self.sid
    }

    /// Closes the queue, so that the subscription's sender stops; this is what
    /// dropping a subscriber does.
    pub fn close(&mut self)
        ensures
            final(self).sid() == old(self).sid(),
            message_receiver_channel(final(self).receiver()) == message_receiver_channel(old(self).receiver()),
            message_channel_bound(final(self).receiver()) == message_channel_bound(old(self).receiver()),
            message_receiver_closed(final(self).receiver()),
    {
        close_message_receiver(&mut self.receiver);
    }

    /// The queue, for polling it as a stream.
    pub fn receiver_mut(&mut self) -> (receiver: &mut mpsc::Receiver<Message>)
        ensures
            *receiver == old(self).receiver(),
            final(self).sid() == old(self).sid(),
            final(self).receiver() == *final(receiver),
    {
        &mut self.receiver
    }
}

} // verus!
