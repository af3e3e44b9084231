# eemod

Message identifiers for end-to-end encrypted messaging, issued by an
exchange server (EEMS) so that a receiver can check a message's identifier
and moderators can later trace a reported message to its source; plus the
identifier shuffle between two message service providers (MSPs) and the
reporters' MAC shares.

- `src/` is the verified library (Verus): byte arithmetic (`bignum`,
  `utils`), the cryptographic primitives behind trusted wrappers
  (`crypto`), the protocol-buffers wire form of the signed and encrypted
  messages (`proto`), the identifier archive layout (`db`), the exchange
  server (`eems`), the providers' shuffle (`msp`) and the users (`user`).
- `tests/` runs the library with the real outside crates.
- `app/` holds what Verus does not take: the RocksDB store, the async
  request handler and client, the moderation and reporter code that calls
  the distributed point and comparison functions, and the evaluation
  programs.
