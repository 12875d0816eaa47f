# sdkt_rpc

Verified core of a Soroban RPC client, written in Verus.

- `src/` is the library, verified by Verus:
  - `account.rs`: address to ledger key, ledger-entry parsing (with fallback
    to bare entry data), next sequence number, account inspection.
  - `client.rs`: client settings and endpoint normalisation, JSON-RPC call
    framing, reply interpretation, the request retry state machine, and the
    Friendbot funding decisions.
  - `text.rs`: trimming, substring search, truncation and decimal rendering
    with exact specifications.
  - `ledger.rs`: plain-value models of decoded strkeys and ledger entries.
  - `codec.rs`: the trusted calls into `stellar-strkey`, `stellar-xdr` and
    `base64`.
  - `error.rs`: the error type and its model.
- `app/` is ordinary Rust: the HTTP transport (reqwest, tokio) that drives
  the retry state machine, serde copies of the wire types, and the async
  account and Friendbot operations.
- `tests/` runs the library with the real outside crates linked.
