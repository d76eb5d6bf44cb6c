//! The decisions of the connection's read loop and of the connector loop, as
//! functions from what happened to what to do next. The caller performs the I/O.

use crate::bytes_spec::{bytes_mut_is_empty, bytes_mut_view};
use crate::protocol::{ClientOp, ServerOp};
use bytes::BytesMut;
use vstd::prelude::*;

verus! {

/// Parses the operation at the front of `buffer`. This client does not parse server
/// operations yet: no buffer yields one.
pub fn parse_op(buffer: &BytesMut) -> (op: Option<ServerOp>)
    ensures
        op is None,
{
    None
}

/// What the read loop does next.
pub enum ReadStep {
    /// A whole operation was parsed: return it.
    Frame(ServerOp),
    /// No whole operation is buffered: read more from the socket.
    Fill,
    /// The peer closed the connection between operations: return no operation.
    Closed,
    /// The peer closed the connection in the middle of an operation: fail with
    /// "connection reset by peer".
    Reset,
}

/// The first decision of each round of the read loop: hand out a buffered operation,
/// or ask for more bytes. As `parse_op` yields no operation, it always asks for more.
pub fn poll_frame(buffer: &BytesMut) -> (step: ReadStep)
    ensures
        step is Fill,
{
    match parse_op(buffer) {
        Some(op) => ReadStep::Frame(op),
        None => ReadStep::Fill,
    }
}

/// The decision after a read of `bytes_read` bytes into `buffer`: a read of nothing
/// means the peer closed, cleanly if nothing is left over; otherwise the loop parses
/// again, and asks for more.
pub fn after_fill(bytes_read: usize, buffer: &BytesMut) -> (step: ReadStep)
    ensures
        bytes_read == 0 && bytes_mut_view(*buffer).len() == 0 ==> step is Closed,
        bytes_read == 0 && bytes_mut_view(*buffer).len() != 0 ==> step is Reset,
        bytes_read != 0 ==> step is Fill,
{
    if bytes_read == 0 {
        if bytes_mut_is_empty(buffer) {
            ReadStep::Closed
        } else {
            ReadStep::Reset
        }
    } else {
        poll_frame(buffer)
    }
}

/// What the connector loop saw.
pub enum ConnectorEvent {
    /// The outgoing channel yielded an operation, or `None` once every sender is gone.
    Outgoing(Option<ClientOp>),
    /// Writing an operation to the connection failed.
    WriteFailed,
    /// The connection's read loop returned.
    Incoming,
}

/// What the connector loop does next.
pub enum ConnectorAction {
    /// Write this operation to the connection.
    Write(ClientOp),
    /// Leave the loop, flush the connection and return.
    Shutdown,
    /// Go on waiting.
    Continue,
}

/// The connector's decision for one event: it writes what it is handed, goes on after
/// a failed write or a read, and stops once the outgoing channel is closed.
pub fn connector_step(event: ConnectorEvent) -> (action: ConnectorAction)
    ensures
        (action is Shutdown) <==> (event == ConnectorEvent::Outgoing(None)),
        event matches ConnectorEvent::Outgoing(Some(op)) ==> action == ConnectorAction::Write(op),
        (event is WriteFailed || event is Incoming) ==> action is Continue,
{
    match event {
        ConnectorEvent::Outgoing(Some(op)) => ConnectorAction::Write(op),
        ConnectorEvent::Outgoing(None) => ConnectorAction::Shutdown,
        ConnectorEvent::WriteFailed => ConnectorAction::Continue,
        ConnectorEvent::Incoming => ConnectorAction::Continue,
    }
}

/// The connector loop runs until its outgoing channel closes: of every event it can see
/// (an outgoing operation, a failed write, the end of a read, with or without an error),
/// only the closed channel makes `connector_step` stop it.
pub proof fn lemma_connector_stops_only_when_channel_closes(event: ConnectorEvent, action: ConnectorAction)
    requires
        call_ensures(connector_step, (event,), action),
    ensures
        (action is Shutdown) <==> (event == ConnectorEvent::Outgoing(None)),
{
}

} // verus!
