# poster

An MQTT 5 client library whose packet codec and protocol bookkeeping are
verified with Verus.

- `src/types/` — the wire types (variable byte integers, non-zero
  integers, binary data, UTF-8 strings), the sequential decoder, the
  properties and the size checks, each with a specification of its bytes.
- `src/codec/` — every packet: what its encoder writes and what its decoder
  accepts are stated over byte sequences, and reading back what was written
  is proved for the packets the client both sends and receives.
- `src/client/` — the option builders, the responses, the errors, the
  framing of the received byte stream and the session's bookkeeping (send
  quota, requests waiting for an answer, subscriptions, retransmission).
- `src/buffer.rs`, `src/time.rs` — the calls into `bytes` and into
  `core::time`, with the contracts they are trusted to keep.
- `app/` — the asynchronous context and handle built on `futures`: socket
  I/O, channels and the event loop, calling into the library for every
  decision.
- `tests/` — tests of the library on concrete packets.
