//! The `tokio` and `tokio-stream` handles that the library carries: channel
//! endpoints, the buffered socket writer and the broadcast stream adapter.

use crate::client;
use crate::subscription::Message;
use tokio::io::BufWriter;
use tokio::net::TcpStream;
use tokio::sync::{broadcast, mpsc};
use tokio_stream::wrappers::BroadcastStream;
use vstd::prelude::*;

verus! {

#[verifier::external_type_specification]
#[verifier::external_body]
#[verifier::reject_recursive_types(T)]
pub struct ExMpscSender<T>(tokio::sync::mpsc::Sender<T>);

#[verifier::external_type_specification]
#[verifier::external_body]
#[verifier::reject_recursive_types(T)]
pub struct ExMpscReceiver<T>(tokio::sync::mpsc::Receiver<T>);

#[verifier::external_type_specification]
#[verifier::external_body]
#[verifier::reject_recursive_types(T)]
pub struct ExBroadcastSender<T>(tokio::sync::broadcast::Sender<T>);

#[verifier::external_type_specification]
#[verifier::external_body]
#[verifier::reject_recursive_types(T)]
pub struct ExBroadcastReceiver<T>(tokio::sync::broadcast::Receiver<T>);

#[verifier::external_type_specification]
#[verifier::external_body]
#[verifier::reject_recursive_types(T)]
pub struct ExBroadcastStream<T>(tokio_stream::wrappers::BroadcastStream<T>);

#[verifier::external_type_specification]
#[verifier::external_body]
#[verifier::reject_recursive_types(W)]
pub struct ExBufWriter<W>(tokio::io::BufWriter<W>);

#[verifier::external_type_specification]
#[verifier::external_body]
pub struct ExTcpStream(tokio::net::TcpStream);

/// The bound that a bounded message channel was made with, as its receiver
/// reports it through `Receiver::max_capacity`.
pub uninterp spec fn message_channel_bound(r: mpsc::Receiver<Message>) -> nat;

/// Whether a message channel was closed from its receiving side, by
/// `Receiver::close`: tokio's `rx_closed` flag, which starts out false, which only the
/// (unique, non-cloneable) receiver sets, and which nothing clears.
pub uninterp spec fn message_receiver_closed(r: mpsc::Receiver<Message>) -> bool;

/// The channel that a message sender feeds: equal to `message_receiver_channel` of the
/// receiver made with it by the same `mpsc::channel` call (both hold that channel's `Arc`).
pub uninterp spec fn message_sender_channel(s: mpsc::Sender<Message>) -> int;

/// The channel that a message receiver takes from.
pub uninterp spec fn message_receiver_channel(r: mpsc::Receiver<Message>) -> int;

/// `tokio::sync::mpsc::channel::<Message>(buffer)`: the two ends of one bounded channel;
/// the receiver reports `buffer` as its bound and is not yet closed from its side. tokio panics on a zero buffer and on one above
/// its semaphore's limit of `usize::MAX >> 3` permits, which `requires` leaves out.
#[verifier::external_body]
pub fn message_channel(buffer: usize) -> (channel: (mpsc::Sender<Message>, mpsc::Receiver<Message>))
    requires
        0 < buffer <= usize::MAX / 8,
    ensures
        message_sender_channel(channel.0) == message_receiver_channel(channel.1),
        message_channel_bound(channel.1) == buffer,
        !message_receiver_closed(channel.1),
{
    mpsc::channel(buffer)
}

/// `tokio::sync::mpsc::Receiver::close`: marks the channel closed from the receiving
/// side, so that senders stop; the receiver stays on the same channel, whose bound
/// stays as it was.
#[verifier::external_body]
pub fn close_message_receiver(receiver: &mut mpsc::Receiver<Message>)
    ensures
        message_receiver_channel(*final(receiver)) == message_receiver_channel(*old(receiver)),
        message_channel_bound(*final(receiver)) == message_channel_bound(*old(receiver)),
        message_receiver_closed(*final(receiver)),
{
    receiver.close()
}

/// Whether `n` is a power of two.
pub open spec fn is_power_of_two(n: nat) -> bool
    decreases n,
{
    if n <= 1 {
        n == 1
    } else {
        n % 2 == 0 && is_power_of_two(n / 2)
    }
}

/// A power of two is the only one in the range from itself to its double.
pub proof fn lemma_power_of_two_unique(a: nat, b: nat)
    requires
        is_power_of_two(a),
        is_power_of_two(b),
        a <= b < 2 * a,
    ensures
        a == b,
    decreases a,
{
    if a > 1 {
        lemma_power_of_two_unique(a / 2, b / 2);
    }
}

/// The channel that a broadcast sender feeds: equal to `broadcast_receiver_channel` of
/// the receiver made with it by the same `broadcast::channel` call (both hold its `Arc`).
pub uninterp spec fn broadcast_sender_channel(s: broadcast::Sender<client::Message>) -> int;

/// The channel that a broadcast receiver takes from.
pub uninterp spec fn broadcast_receiver_channel(r: broadcast::Receiver<client::Message>) -> int;

/// The channel that a broadcast stream takes from.
pub uninterp spec fn broadcast_stream_channel(s: BroadcastStream<client::Message>) -> int;

/// The number of slots of the ring buffer that a broadcast channel keeps its messages
/// in; a receiver that falls further behind loses the oldest.
pub uninterp spec fn broadcast_channel_slots(s: broadcast::Sender<client::Message>) -> nat;

/// `tokio::sync::broadcast::channel::<client::Message>(capacity)`: a sender and its
/// first receiver, on one channel whose ring buffer has `capacity` rounded up to a
/// power of two slots. tokio panics on a zero capacity and on one above
/// `usize::MAX / 2`, which `requires` leaves out.
#[verifier::external_body]
pub fn broadcast_channel(capacity: usize) -> (channel: (
    broadcast::Sender<client::Message>,
    broadcast::Receiver<client::Message>,
))
    requires
        0 < capacity <= usize::MAX / 2,
    ensures
        broadcast_sender_channel(channel.0) == broadcast_receiver_channel(channel.1),
        is_power_of_two(broadcast_channel_slots(channel.0)),
        capacity <= broadcast_channel_slots(channel.0) < 2 * capacity,
{
    broadcast::channel(capacity)
}

/// `tokio_stream::wrappers::BroadcastStream::new`: wraps a broadcast receiver into a
/// stream of the messages of its channel.
#[verifier::external_body]
pub fn broadcast_stream(receiver: broadcast::Receiver<client::Message>) -> (stream: BroadcastStream<client::Message>)
    ensures
        broadcast_stream_channel(stream) == broadcast_receiver_channel(receiver),
{
    BroadcastStream::new(receiver)
}

/// `tokio::sync::broadcast::Sender::send`: hands `message` to the receivers of the
/// sender's channel. Nothing is stated: whether any receiver is left to take it, and
/// what each receiver has seen, is state of the channel that no handle here holds.
#[verifier::external_body]
pub fn broadcast_send(sender: &broadcast::Sender<client::Message>, message: client::Message) {
    let _ = sender.send(message);
}

/// What a buffered writer holds and has not yet passed to its writer.
pub uninterp spec fn writer_buffered(w: BufWriter<TcpStream>) -> Seq<u8>;

/// The writer that a buffered writer passes its bytes on to (`BufWriter::get_ref`).
pub uninterp spec fn writer_socket(w: BufWriter<TcpStream>) -> TcpStream;

/// `tokio::io::BufWriter::new`: a buffered writer over `socket` that holds nothing
/// yet (`BufWriter::buffer` is empty).
#[verifier::external_body]
pub fn buffered_writer(socket: TcpStream) -> (writer: BufWriter<TcpStream>)
    ensures
        writer_socket(writer) == socket,
        writer_buffered(writer) == Seq::<u8>::empty(),
{
    BufWriter::new(socket)
}

} // verus!
