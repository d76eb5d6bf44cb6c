//! A buffered connection to a NATS server over a TCP socket. Frames are queued on
//! the connection as bytes; the caller writes them to the socket.

use crate::bytes_spec::{bytes_mut_view, bytes_mut_with_capacity, bytes_view};
use crate::protocol::{append, client_op_frame, encode_client_op, publish_frame, ClientOp};
use crate::tokio_spec::{buffered_writer, writer_buffered, writer_socket};
use bytes::{Bytes, BytesMut};
use tokio::io::BufWriter;
use tokio::net::TcpStream;
use vstd::prelude::*;

verus! {

/// The capacity that a connection's read buffer starts with.
pub const READ_BUFFER_CAPACITY: usize = 4096;

/// A buffered writer over the socket, the frames queued for it, and a buffer for
/// what was read from it.
pub struct Connection {
    stream: BufWriter<TcpStream>,
    buffer: BytesMut,
    outgoing: Vec<u8>,
}

impl Connection {
    /// What was read from the socket and not yet taken.
    pub closed spec fn buffered(&self) -> Seq<u8> {
        bytes_mut_view(self.buffer)
    }

    /// The buffered writer over the socket.
    pub closed spec fn writer(&self) -> BufWriter<TcpStream> {
        self.stream
    }

    /// The frames queued for the socket and not yet taken, in order.
    pub closed spec fn pending(&self) -> Seq<u8> {
        self.outgoing@
    }

    /// Create a new `Connection` backed by the given `socket`: its writer passes bytes
    /// on to `socket`, and nothing is read, queued or held in the writer yet.
    pub fn new(socket: TcpStream) -> (connection: Connection)
        ensures
            connection.buffered() == Seq::<u8>::empty(),
            connection.pending() == Seq::<u8>::empty(),
            writer_socket(connection.writer()) == socket,
            writer_buffered(connection.writer()) == Seq::<u8>::empty(),
    {
        Connection {
            stream: buffered_writer(socket),
            buffer: bytes_mut_with_capacity(READ_BUFFER_CAPACITY),
            outgoing: Vec::new(),
        }
    }

    /// Queues the frame of `op` after what is already queued.
    pub fn write_op(&mut self, op: &ClientOp)
        ensures
            final(self).pending() == old(self).pending() + client_op_frame(*op),
            final(self).buffered() == old(self).buffered(),
            final(self).writer() == old(self).writer(),
    {
        let frame = encode_client_op(op);
        append(&mut self.outgoing, frame.as_slice());
    }

    /// Queues the frame that publishes `message` on `subject`.
    pub fn write_publish(&mut self, subject: &str, message: Bytes)
        ensures
            final(self).pending() == old(self).pending() + publish_frame(subject@, bytes_view(message)),
            final(self).buffered() == old(self).buffered(),
            final(self).writer() == old(self).writer(),
    {
        let op = ClientOp::Publish { subject: subject.to_owned(), payload: message };
        self.write_op(&op);
    }

    /// Takes the queued frames, leaving none queued.
    pub fn take_outgoing(&mut self) -> (frames: Vec<u8>)
        ensures
            frames@ == old(self).pending(),
            final(self).pending() == Seq::<u8>::empty(),
            final(self).buffered() == old(self).buffered(),
            final(self).writer() == old(self).writer(),
    {
        let mut frames: Vec<u8> = Vec::new();
        std::mem::swap(&mut frames, &mut self.outgoing);
        frames
    }

    /// The buffered writer over the socket, for writing frames to it.
    pub fn stream_mut(&mut self) -> (stream: &mut BufWriter<TcpStream>)
        ensures
            *stream == old(self).writer(),
            final(self).writer() == *final(stream),
            final(self).buffered() == old(self).buffered(),
            final(self).pending() == old(self).pending(),
    {
        &mut self.stream
    }

    /// The writer over the socket and the read buffer together, for reading from the
    /// socket into the buffer.
    pub fn parts_mut(&mut self) -> (parts: (&mut BufWriter<TcpStream>, &mut BytesMut))
        ensures
            *parts.0 == old(self).writer(),
            bytes_mut_view(*parts.1) == old(self).buffered(),
            final(self).writer() == *final(parts.0),
            final(self).buffered() == bytes_mut_view(*final(parts.1)),
            final(self).pending() == old(self).pending(),
    {
        (&mut self.stream, &mut self.buffer)
    }
}

} // verus!
