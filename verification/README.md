# intent_relay

The backend of an intent relay, with its logic verified by Verus.

- `src/` is the verified library: EIP-712 hashing and signature checking of
  intents, the decisions of each endpoint (which requests are refused, with which
  status and message), the mapping between the relay's data and its database
  columns, and the relayer whitelist. Calls into `ethers_core` and `hex` stand
  behind small trusted functions in `src/eth.rs` and `src/hexcodec.rs`, whose
  contracts say what those crates return.
- `app/` is the server around it: axum routing, PostgreSQL access through sqlx,
  the WebSocket loop, environment settings, and serde copies of the library's types.
- `tests/` exercises the library on concrete values.
