//! An established connection with a NATS server that keeps its own subscriptions.
//! Frames for the server are queued on the connection; the caller writes them.

use crate::bytes_spec::bytes_view;
use crate::connection::Connection;
use crate::protocol::{client_op_frame, publish_frame, subscribe_frame, ClientOp, ServerOp};
use crate::tokio_spec::{
    broadcast_channel, broadcast_channel_slots, broadcast_receiver_channel, broadcast_send,
    broadcast_sender_channel, broadcast_stream, broadcast_stream_channel, is_power_of_two,
    lemma_power_of_two_unique, writer_buffered, writer_socket,
};
use bytes::Bytes;
use std::collections::HashMap;
use tokio::net::TcpStream;
use tokio::sync::broadcast;
use tokio_stream::wrappers::BroadcastStream;
use vstd::prelude::*;

verus! {

broadcast use vstd::std_specs::hash::group_hash_axioms;

/// The number of messages a subscription's broadcast queue holds before the oldest is dropped.
pub const SUBSCRIPTION_QUEUE: usize = 32;

/// A NATS message.
#[derive(Debug, Clone)]
pub struct Message {
    pub subject: String,
    pub payload: Bytes,
}

/// A subscription to one or more subjects.
pub struct Subscription {
    id: u64,
    receiver: broadcast::Receiver<Message>,
}

impl Subscription {
    /// The subscription's id.
    pub closed spec fn sid(&self) -> u64 {
        self.id
    }

    /// The queue that the subscription's messages arrive on.
    pub closed spec fn receiver(&self) -> broadcast::Receiver<Message> {
        self.receiver
    }

    /// The subscription's id.
    pub fn id(&self) -> (id: u64)
        ensures
            id == self.sid(),
    {
        self.id
    }

    /// The messages of this subscription as a stream: it takes from the channel that
    /// this subscription's receiver takes from.
    pub fn into_stream(self) -> (stream: BroadcastStream<Message>)
        ensures
            broadcast_stream_channel(stream) == broadcast_receiver_channel(self.receiver()),
    {
        broadcast_stream(self.receiver)
    }
}

/// The senders of a client's subscriptions, by id, and the id that the next one gets.
pub struct Subscriptions {
    next_id: u64,
    senders: HashMap<u64, broadcast::Sender<Message>>,
}

impl Subscriptions {
    /// The id that the next subscription gets.
    pub closed spec fn next_sid(&self) -> u64 {
        self.next_id
    }

    /// The senders, by id.
    pub closed spec fn senders(&self) -> Map<u64, broadcast::Sender<Message>> {
        self.senders@
    }

    /// Ids start at 1, and every id in use was handed out before the next one.
    pub open spec fn ids_in_range(&self) -> bool {
        &&& self.next_sid() >= 1
        &&& forall|sid: u64| #[trigger] self.senders().contains_key(sid) ==> 1 <= sid < self.next_sid()
    }

    #[verifier::type_invariant]
    closed spec fn wf(&self) -> bool {
        &&& self.next_id >= 1
        &&& forall|sid: u64| #[trigger] self.senders@.contains_key(sid) ==> 1 <= sid < self.next_id
    }

    /// The id that the next subscription gets is not in use.
    pub proof fn lemma_next_id_is_fresh(&self)
        requires
            self.ids_in_range(),
        ensures
            !self.senders().contains_key(self.next_sid()),
    {
    }

    /// No subscriptions yet; the first gets the id 1.
    pub fn new() -> (subscriptions: Subscriptions)
        ensures
            subscriptions.next_sid() == 1,
            subscriptions.senders() == Map::<u64, broadcast::Sender<Message>>::empty(),
            subscriptions.ids_in_range(),
    {
        Subscriptions { next_id: 1, senders: HashMap::new() }
    }

    /// Stores `sender` under a fresh id and returns that id.
    pub fn insert(&mut self, sender: broadcast::Sender<Message>) -> (sid: u64)
        requires
            old(self).next_sid() < u64::MAX,
        ensures
            sid == old(self).next_sid(),
            !old(self).senders().contains_key(sid),
            final(self).next_sid() == sid + 1,
            final(self).senders() == old(self).senders().insert(sid, sender),
            final(self).ids_in_range(),
    {
        proof {
            use_type_invariant(&*self);
        }
        let id = self.next_id;
        self.next_id = self.next_id + 1;
        let mut senders: HashMap<u64, broadcast::Sender<Message>> = HashMap::new();
        std::mem::swap(&mut senders, &mut self.senders);
        senders.insert(id, sender);
        std::mem::swap(&mut senders, &mut self.senders);
        proof {
            use_type_invariant(&*self);
        }
        id
    }

    /// The sender stored under `sid`, if any.
    pub fn get(&self, sid: u64) -> (sender: Option<&broadcast::Sender<Message>>)
        ensures
            match sender {
                Some(s) => self.senders().contains_key(sid) && *s == self.senders()[sid],
                None => !self.senders().contains_key(sid),
            },
    {
        self.senders.get(&sid)
    }
}

/// An established connection with a NATS server.
pub struct Client {
    connection: Connection,
    subscriptions: Subscriptions,
}

impl Client {
    /// The id that the next subscription gets.
    pub closed spec fn next_sid(&self) -> u64 {
        self.subscriptions.next_sid()
    }

    /// The senders of the subscriptions made so far, by id.
    pub closed spec fn subscriptions(&self) -> Map<u64, broadcast::Sender<Message>> {
        self.subscriptions.senders()
    }

    /// Ids start at 1, and every id in use was handed out before the next one.
    pub open spec fn ids_in_range(&self) -> bool {
        &&& self.next_sid() >= 1
        &&& forall|sid: u64| #[trigger]
            self.subscriptions().contains_key(sid) ==> 1 <= sid < self.next_sid()
    }

    /// The connection to the server.
    pub closed spec fn connection(&self) -> Connection {
        self.connection
    }

    /// A client over a connected `socket`, without subscriptions and with nothing read,
    /// queued or held for writing; its first subscription gets the id 1.
    pub fn from_socket(socket: TcpStream) -> (client: Client)
        ensures
            client.next_sid() == 1,
            client.subscriptions() == Map::<u64, broadcast::Sender<Message>>::empty(),
            client.ids_in_range(),
            client.connection().buffered() == Seq::<u8>::empty(),
            client.connection().pending() == Seq::<u8>::empty(),
            writer_socket(client.connection().writer()) == socket,
            writer_buffered(client.connection().writer()) == Seq::<u8>::empty(),
    {
        let connection = Connection::new(socket);
        Client { connection, subscriptions: Subscriptions::new() }
    }

    /// The id that the next subscription gets.
    pub fn next_subscription_id(&self) -> (sid: u64)
        ensures
            sid == self.next_sid(),
    {
        self.subscriptions.next_id
    }

    /// The connection, for writing the queued frames to the socket and reading from it.
    pub fn connection_mut(&mut self) -> (connection: &mut Connection)
        ensures
            *connection == old(self).connection(),
            final(self).connection() == *final(connection),
            final(self).subscriptions() == old(self).subscriptions(),
            final(self).next_sid() == old(self).next_sid(),
            final(self).ids_in_range() == old(self).ids_in_range(),
    {
        &mut self.connection
    }

    /// Publishes `payload` on `subject`: queues `PUB <subject> <length>\r\n<payload>\r\n`
    /// on the connection.
    pub fn publish(&mut self, subject: &str, payload: Bytes)
        ensures
            final(self).connection().pending() == old(self).connection().pending()
                + publish_frame(subject@, bytes_view(payload)),
            final(self).connection().buffered() == old(self).connection().buffered(),
            final(self).connection().writer() == old(self).connection().writer(),
            final(self).subscriptions() == old(self).subscriptions(),
            final(self).next_sid() == old(self).next_sid(),
            final(self).ids_in_range() == old(self).ids_in_range(),
    {
        self.connection.write_publish(subject, payload);
    }

    /// Subscribes to `subject`, which may be either a topic or a pattern: the
    /// subscription gets the next id and a broadcast queue of `SUBSCRIPTION_QUEUE`
    /// messages whose sender is stored under that id, and `SUB <subject> <id>\r\n` is
    /// queued on the connection.
    pub fn subscribe(&mut self, subject: &str) -> (s: Subscription)
        requires
            old(self).next_sid() < u64::MAX,
        ensures
            s.sid() == old(self).next_sid(),
            !old(self).subscriptions().contains_key(old(self).next_sid()),
            final(self).subscriptions().contains_key(old(self).next_sid()),
            final(self).subscriptions().remove(old(self).next_sid()) == old(self).subscriptions(),
            broadcast_sender_channel(final(self).subscriptions()[old(self).next_sid()])
                == broadcast_receiver_channel(s.receiver()),
            broadcast_channel_slots(final(self).subscriptions()[old(self).next_sid()])
                == SUBSCRIPTION_QUEUE,
            final(self).next_sid() == old(self).next_sid() + 1,
            final(self).ids_in_range(),
            final(self).connection().pending() == old(self).connection().pending()
                + subscribe_frame(old(self).next_sid(), subject@),
            final(self).connection().buffered() == old(self).connection().buffered(),
            final(self).connection().writer() == old(self).connection().writer(),
    {
        let (sender, receiver) = broadcast_channel(SUBSCRIPTION_QUEUE);
        proof {
            assert(is_power_of_two(32)) by {
                reveal_with_fuel(is_power_of_two, 7);
            }
            lemma_power_of_two_unique(32, broadcast_channel_slots(sender));
        }
        let id = self.subscriptions.insert(sender);
        proof {
            assert(self.subscriptions().remove(id) =~= old(self).subscriptions());
        }
        let op = ClientOp::Subscribe { sid: id, subject: subject.to_owned() };
        self.connection.write_op(&op);
        Subscription { id, receiver }
    }

    /// Where an incoming operation goes: a message for a subscription goes, as a
    /// `Message` of its subject and payload, to the sender stored under its id; nothing
    /// else goes anywhere.
    pub fn route(&self, incoming: ServerOp) -> (target: Option<(&broadcast::Sender<Message>, Message)>)
        ensures
            match incoming {
                ServerOp::Message { sid, subject, reply_to: _, payload } => if self.subscriptions().contains_key(sid) {
                    target matches Some((sender, message)) && *sender == self.subscriptions()[sid]
                        && message == (Message { subject, payload })
                } else {
                    target is None
                },
                _ => target is None,
            },
    {
        match incoming {
            ServerOp::Message { sid, subject, reply_to: _, payload } => {
                match self.subscriptions.get(sid) {
                    Some(sender) => Some((sender, Message { subject, payload })),
                    None => None,
                }
            },
            _ => None,
        }
    }

    /// Processes one operation that came in from the server: a message is sent on the
    /// sender that `route` picks for it, and its id is returned; a `PING` is answered
    /// by queuing a `PONG`; anything else is dropped.
    pub fn process(&mut self, incoming: ServerOp) -> (delivered: Option<u64>)
        ensures
            match incoming {
                ServerOp::Message { sid, .. } => {
                    &&& old(self).subscriptions().contains_key(sid) ==> delivered == Some(sid)
                    &&& !old(self).subscriptions().contains_key(sid) ==> delivered is None
                    &&& final(self).connection().pending() == old(self).connection().pending()
                },
                ServerOp::Ping => {
                    &&& delivered is None
                    &&& final(self).connection().pending() == old(self).connection().pending()
                        + client_op_frame(ClientOp::Pong)
                },
                ServerOp::Pong => {
                    &&& delivered is None
                    &&& final(self).connection().pending() == old(self).connection().pending()
                },
            },
            final(self).connection().buffered() == old(self).connection().buffered(),
            final(self).connection().writer() == old(self).connection().writer(),
            final(self).subscriptions() == old(self).subscriptions(),
            final(self).next_sid() == old(self).next_sid(),
            final(self).ids_in_range() == old(self).ids_in_range(),
    {
        match incoming {
            ServerOp::Ping => {
                self.connection.write_op(&ClientOp::Pong);
                None
            },
            ServerOp::Pong => None,
            ServerOp::Message { sid, subject, reply_to, payload } => {
                let incoming = ServerOp::Message { sid, subject, reply_to, payload };
                match self.route(incoming) {
                    Some((sender, message)) => {
                        broadcast_send(sender, message);
                        Some(sid)
                    },
                    None => None,
                }
            },
        }
    }
}

} // verus!
