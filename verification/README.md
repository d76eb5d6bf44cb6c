# tokio_nats

A small NATS client whose logic is verified with Verus.

- `src/protocol.rs`: the operations of the protocol and the exact bytes of every
  client frame (`PUB`, `SUB`, `UNSUB`, `PING`, `PONG`, `CONNECT`), with the decimal
  rendering of lengths and ids and the facts that a reader can take them back apart.
- `src/subscription.rs`: the subscription context of the channel-based client
  (fresh ids, one bounded queue per subscriber).
- `src/client.rs`, `src/connection.rs`: the client that keeps broadcast
  subscriptions itself, over a buffered TCP connection. Its operations queue their
  frames on the connection, and `Client::process` routes one incoming operation to
  its subscription; `app/client.rs` writes the queued frames and runs the read loop.
- `src/driver.rs`: the decisions of the read loop and of the connector loop.
- `src/bytes_spec.rs`, `src/tokio_spec.rs`: the outside types and calls the
  library relies on, with the contracts it assumes of them.
- `app/`: sockets, tasks, `select!`, and the `Stream` and `Drop` impls.
