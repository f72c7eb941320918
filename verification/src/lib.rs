//! Client-side engine for a Flashbots MEV-Share style transaction relay.
//!
//! The crate models bundles of transactions (possibly nested), flattens them
//! to the transaction hashes they depend on, tracks submitted transactions
//! and bundles until they land, revert, or time out, and prepares the
//! authenticated JSON-RPC requests used to talk to the relay.
//!
//! All network, signing and serialization plumbing is left to the caller;
//! the decision logic here is fully specified and verified.

pub mod bundle;
pub mod client;
pub mod decimal;
pub mod error;
pub mod events;
pub mod flatten;
pub mod hashing;
pub mod networks;
pub mod pending;
pub mod rest;
pub mod rpc;
pub mod types;
pub mod waiter;
