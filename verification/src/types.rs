use vstd::prelude::*;

verus! {

/// A 32-byte transaction (or bundle) hash.
pub type TxHash = [u8; 32];

/// A 20-byte account address.
pub type Address = [u8; 20];

/// A 4-byte function selector.
pub type Selector = [u8; 4];

/// A 256-bit quantity (gas price, profit, ...), big-endian bytes.
///
/// The tracking logic never does arithmetic on these values; they are
/// carried through unchanged, so a fixed-width byte representation is all
/// that is needed.
pub type U256Be = [u8; 32];

/// The part of an on-chain transaction receipt that the inclusion logic
/// reads: the transaction it belongs to, the block it was mined in, and
/// the execution status (`1` for success, anything else is a revert).
#[derive(Clone, Copy, Debug)]
pub struct Receipt {
    pub transaction_hash: TxHash,
    pub block_number: u64,
    pub status: u64,
}

/// A log emitted by a transaction: emitting address, indexed topics, and
/// opaque data bytes.
#[derive(Clone, Debug)]
pub struct LogEntry {
    pub address: Address,
    pub topics: Vec<TxHash>,
    pub data: Vec<u8>,
}

} // verus!
