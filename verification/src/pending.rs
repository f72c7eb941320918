use vstd::prelude::*;
use vstd::string::StringExecFns;
use crate::bundle::SendBundleParams;
use crate::error::Error;
use crate::hashing::{hex_lower, hex_of};
use crate::types::{Receipt, TxHash};
use crate::waiter::{BundleWaitDecision, TxWaitDecision};

verus! {

/// The `0x`-prefixed lowercase hex rendering of a hash, for display.
pub fn hash_hex(hash: &TxHash) -> (r: String)
    ensures
        r@ == seq!['0', 'x'] + hex_of(hash@),
{
    proof {
        reveal_strlit("0x");
        assert("0x"@ =~= seq!['0', 'x']);
    }
    "0x".to_owned().concat(hex_lower(hash.as_slice()).as_str())
}

/// Number of blocks a relay keeps retrying a private transaction; used as
/// the default wait window when the submission named no maximum block.
pub const TX_WAIT_MAX_BLOCKS: u64 = 25;

/// A private transaction that was accepted by the relay and is pending
/// inclusion: its hash and the maximum block of its submission.
///
/// The handle is single-use: once a wait resolves — with a value or with
/// an error — the transaction is either on-chain or dropped, and starting
/// another wait for it is the caller's responsibility to avoid.
#[derive(Clone, Copy, Debug)]
pub struct PendingTransaction {
    /// Transaction hash.
    pub hash: TxHash,
    /// Maximum block number to wait for, when the submission named one.
    pub max_block: Option<u64>,
}

impl PendingTransaction {
    /// Pairs the hash the relay returned with the maximum block of the
    /// submitted request.
    pub fn new(hash: TxHash, max_block: Option<u64>) -> (p: Self)
        ensures
            p.hash == hash,
            p.max_block == max_block,
    {
        PendingTransaction { hash, max_block }
    }

    /// The transaction hash as `0x`-prefixed lowercase hex.
    pub fn hash_string(&self) -> (r: String)
        ensures
            r@ == seq!['0', 'x'] + hex_of(self.hash@),
    {
        hash_hex(&self.hash)
    }

    /// The last block to wait for: the submission's maximum block when it
    /// named one, otherwise [`TX_WAIT_MAX_BLOCKS`] past the current chain
    /// height.
    pub fn effective_max_block(&self, current_block: u64) -> (r: u64)
        requires
            self.max_block is None ==> current_block + TX_WAIT_MAX_BLOCKS <= u64::MAX,
        ensures
            r == match self.max_block {
                Some(m) => m as int,
                None => current_block + TX_WAIT_MAX_BLOCKS,
            },
    {
        match self.max_block {
            Some(m) => m,
            None => current_block + TX_WAIT_MAX_BLOCKS,
        }
    }
}

/// Turns the final decision of a transaction wait into the result of an
/// inclusion call: a found receipt succeeds if and only if its status
/// reports success, a reverted receipt is a `TransactionRevert`, and a
/// timeout is a `TransactionTimeout` carrying the hash and the block that
/// ended the wait.
pub fn conclude_tx_wait(hash: TxHash, decision: TxWaitDecision<Receipt>) -> (r: Result<
    (Receipt, u64),
    Error,
>)
    requires
        !(decision is Continue),
    ensures
        match decision {
            TxWaitDecision::Found { item, block } => if item.status == 1 {
                r == Ok::<(Receipt, u64), Error>((item, block))
            } else {
                r == Err::<(Receipt, u64), Error>(Error::TransactionRevert(item))
            },
            TxWaitDecision::TimedOut { block } => r == Err::<(Receipt, u64), Error>(
                Error::TransactionTimeout(hash, block),
            ),
            TxWaitDecision::Continue => false,
        },
{
    match decision {
        TxWaitDecision::Found { item, block } => {
            if item.status == 1 {
                Ok((item, block))
            } else {
                Err(Error::TransactionRevert(item))
            }
        },
        TxWaitDecision::TimedOut { block } => Err(Error::TransactionTimeout(hash, block)),
        TxWaitDecision::Continue => Err(Error::TransactionTimeout(hash, 0)),
    }
}

/// A bundle that was accepted by the relay and is pending inclusion: its
/// hash and the request it was submitted with. A wait for it reconciles
/// every flattened transaction hash of the request body, not just one.
///
/// Single-use, like [`PendingTransaction`].
#[derive(Debug)]
pub struct PendingBundle {
    /// Bundle hash, as returned by the relay.
    pub hash: TxHash,
    /// The submitted request.
    pub request: SendBundleParams,
}

impl PendingBundle {
    /// Pairs the hash the relay returned with the submitted request.
    pub fn new(hash: TxHash, request: SendBundleParams) -> (p: Self)
        ensures
            p.hash == hash,
            p.request == request,
    {
        PendingBundle { hash, request }
    }

    /// The bundle hash as `0x`-prefixed lowercase hex.
    pub fn hash_string(&self) -> (r: String)
        ensures
            r@ == seq!['0', 'x'] + hex_of(self.hash@),
    {
        hash_hex(&self.hash)
    }
}

/// Turns the final decision of a bundle wait into the result of an
/// inclusion call: a landed bundle yields its receipts and the block of
/// the first one; a timeout carries the flattened hashes and the block
/// that ended the wait; a discard carries the receipts of the part that
/// landed; a revert carries all receipts.
pub fn conclude_bundle_wait(hashes: Vec<TxHash>, decision: BundleWaitDecision) -> (r: Result<
    (Vec<Receipt>, u64),
    Error,
>)
    requires
        !(decision is Continue),
    ensures
        match decision {
            BundleWaitDecision::Landed { receipts, block } => r == Ok::<(Vec<Receipt>, u64), Error>(
                (receipts, block),
            ),
            BundleWaitDecision::TimedOut { block } => r == Err::<(Vec<Receipt>, u64), Error>(
                Error::BundleTimeout(hashes, block),
            ),
            BundleWaitDecision::Discarded { receipts } => r == Err::<(Vec<Receipt>, u64), Error>(
                Error::BundleDiscard(receipts),
            ),
            BundleWaitDecision::Reverted { receipts } => r == Err::<(Vec<Receipt>, u64), Error>(
                Error::BundleRevert(receipts),
            ),
            BundleWaitDecision::Continue => false,
        },
{
    match decision {
        BundleWaitDecision::Landed { receipts, block } => Ok((receipts, block)),
        BundleWaitDecision::TimedOut { block } => Err(Error::BundleTimeout(hashes, block)),
        BundleWaitDecision::Discarded { receipts } => Err(Error::BundleDiscard(receipts)),
        BundleWaitDecision::Reverted { receipts } => Err(Error::BundleRevert(receipts)),
        BundleWaitDecision::Continue => Err(Error::BundleTimeout(hashes, 0)),
    }
}

} // verus!
