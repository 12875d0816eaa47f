//! Verified core of a Soroban RPC client: account key derivation and
//! ledger-entry interpretation, JSON-RPC call framing and reply handling,
//! the request retry policy, and Friendbot funding decisions.
//!
//! Network transport (HTTP, async runtime, JSON encoding) lives outside this
//! crate; the functions here take and return plain values.

pub mod error;
pub mod text;
pub mod ledger;
pub mod codec;
pub mod client;
pub mod account;
