# cableguard

The session logic of a point-to-point WireGuard tunnel whose peers identify
themselves by signed tokens (RODT), written in Verus and proved against its
contracts.

The library decides and keeps the books. It reads datagrams, keeps the ring of
sessions and the queue of packets that wait for one, checks the tokens of peers,
and cuts decrypted IP packets to size. Encryption, the Noise handshake, timers,
rate limiting and looking tokens up are done by engines outside: where one of
them has to work, the library returns an `Action`, and its driver calls the
library again with what came of it.

* `src/packet.rs`, `src/ip.rs`: messages and IP headers
* `src/state.rs`: the state of a tunnel as a mathematical value, and its steps
* `src/tunn.rs`, `src/flow.rs`, `src/action.rs`: the tunnel
* `src/rodt.rs`, `src/signature.rs`, `src/validity.rs`: tokens
* `src/serialization.rs`, `src/encoding.rs`, `src/bytes.rs`, `src/x25519.rs`:
  keys, text and bytes
* `src/laws.rs`, `src/exchange.rs`, `src/run.rs`: what holds across several
  operations, over a whole handshake, and over any run of a tunnel
* `app/`: a driver, with traits for the engines
