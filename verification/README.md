# fd_agave

Verified pieces of a validator that runs the Agave runtime beside a
Firedancer-style tile pipeline, written in Verus.

`src/` is the verified library:

- `gossip` — the gossip wire format as a conformance target: a decoder from a
  datagram to the message it holds (pings, pongs, prune messages, pull
  requests with their Bloom filters, pull responses and push messages carrying
  votes, node records, lowest-slot, epoch-slots, snapshot-hashes and
  duplicate-shred data, and values of the retired kinds), the semantic checks a message must pass, the effects record that
  fixtures compare, builders of the encoding, and laws relating them.
- `versioned_message` — a fixture's transaction message turned into a legacy,
  version 0 or version 1 message.
- `shred` — coding-shred checks (erasure shard index, sanitize) and the byte
  layout of shred headers with the header invariants.
- `poh` — the state kept beside the proof-of-history tile, its tick and
  hand-off state machines, and feature activation slots.
- `account_overrides` — the override table consulted before the accounts
  database.
- `cert_resolver` — the choice between a raw public key and an X.509
  certificate in TLS.
- `version` — the node version record and the client it names.
- `wire`, `text` — little-endian reading and writing, and number rendering.

`app/` holds what touches the outside world: protobuf conversions, the Solana
message types, serde, terminal output, the ledger lock, the rustls traits and
the hand-off thread. `tests/` exercises the library through its public API.
