# rclc

Rust Command Line Chat: a terminal chat client, a local daemon that the
client talks to over a Unix socket, and a discovery server that puts peers
in touch with each other.

- `src/` is the library, verified with Verus: the shift ciphers, the
  discovery server's store of advertisements (placing, matching and
  expiring them), the server's request handlers, the client's key handling
  as a state machine, the daemon's handling of each line on the socket, and
  the framing of messages between client and daemon.
- `app/` holds the three programs around the library (`rclc` runs the
  client, `rclc daemon` the daemon, `rclc server` the discovery server):
  terminal, sockets, HTTP, and the serde forms of the library's types.
- `tests/` exercises the library on concrete values.
