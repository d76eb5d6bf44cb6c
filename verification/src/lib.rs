//! A small NATS client: protocol framing, subscription bookkeeping and the
//! decisions of the read and connector loops, verified with Verus.

pub mod bytes_spec;
pub mod client;
pub mod connection;
pub mod driver;
pub mod frame_laws;
pub mod protocol;
pub mod subscription;
pub mod tokio_spec;

pub use driver::{ConnectorAction, ConnectorEvent, ReadStep};
pub use protocol::{ClientOp, ServerOp};
pub use subscription::{Message, Subscriber, Subscription, SubscriptionContext};

use vstd::prelude::*;

verus! {

/// Default port that a nats server listens on.
///
/// Used if no port is specified.
pub const DEFAULT_PORT: &'static str = "4222";

} // verus!
