# proxy_client

The client side of an Ethereum mining proxy. A mining machine logs in, asks for
work and submits shares through the proxy to a pool; the proxy and its developer
may take a part of the work as a fee.

- `src/` is the library. It decides what a session does with each line, job and
  write, and every decision is verified with Verus. `session.rs` and
  `handle_stream.rs` hold the session, `client_to_server.rs` and
  `server_to_client.rs` the two halves of a plainer relay, `fee.rs` the fees,
  `framing.rs` the lines. `laws/` states what holds of them as a whole.
  `outside.rs` holds the few calls into other crates and what is taken from them
  without proof.
- `app/` holds the sockets, the channels and the JSON around it.
- `tests/` runs the library on examples.
