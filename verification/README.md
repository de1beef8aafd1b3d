# vpn_core

The verified core of a small UDP tunnel that bridges two virtual network
interfaces.

- `src/packet.rs`: parsing of IPv4/IPv6 headers (`packet::parse_data`) and of
  protocol numbers (`parse_protocol`), with their models and laws.
- `src/lib.rs`: an IPv4 parser that keeps the raw protocol number (`parse_data`, `Packet`).
- `src/address.rs`: IP and UDP endpoint values.
- `src/relay.rs`: the server's forwarding decisions: which client gets the
  packets read from the interface, and what a received datagram changes.
- `src/errors*`: the error types of each layer.
- `app/`: the client and server programs (Wintun interface, Tokio sockets),
  which perform the I/O and ask the library what to do.
