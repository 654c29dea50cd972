//! A multi-chain configuration resolver and ledger account client.
//!
//! The library models a set of blockchain configurations (chain name,
//! network, RPC endpoint, asset whitelist source), resolves which
//! configuration and asset source apply to a query, and normalizes the
//! account state returned by a Horizon-compatible read API.  File loading,
//! document decoding and the HTTP transport are collaborators supplied by
//! the caller; everything that decides or computes is verified here.

pub mod config;
pub mod horizon;
pub mod text;
