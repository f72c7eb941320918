use vstd::prelude::*;
use crate::types::{Receipt, TxHash};

verus! {

/// Where an inclusion wait currently stands, and what the driver running
/// the wait must do next.
///
/// The wait alternates between polling the chain for receipts and waiting
/// for the next block header; the surrounding driver performs those
/// provider calls and reports their results back to the state machine.
/// Blocks are assumed to arrive in increasing block-number order, as chain
/// providers guarantee for header subscriptions; the timeout detection
/// relies on that monotonicity and does not re-validate it.
#[derive(Clone, Copy, Debug)]
pub enum WaitPhase {
    /// The driver must poll for receipts and report the result.
    /// `current_block` is the block header that triggered this poll;
    /// it is `None` for the initial poll, made before subscribing to
    /// block headers at all.
    Polling { current_block: Option<u64> },
    /// The driver must wait for the next block header and report it.
    AwaitingBlock,
    /// The wait is over; no further reports are expected.
    Finished,
}

/// The outcome of feeding one poll result to a transaction wait.
#[derive(Debug)]
pub enum TxWaitDecision<T> {
    /// The transaction was found on-chain, in block `block`.
    Found { item: T, block: u64 },
    /// The deadline block was reached without finding the transaction.
    TimedOut { block: u64 },
    /// Nothing is known yet; the driver must wait for the next block.
    Continue,
}

/// Tracks a single submitted transaction until it is found on-chain or
/// until a block at or past `max_block` is seen without it.
///
/// The item type reported by the driver is generic: a wait may be resolved
/// with a full transaction or with just its receipt, whatever the driver
/// fetched; the decision logic reads only the block number.
#[derive(Clone, Copy, Debug)]
pub struct TxInclusionWaiter {
    /// The hash being waited for.
    pub hash: TxHash,
    /// The last block in which the transaction may still be found; a block
    /// numbered `max_block` or higher that does not contain it ends the
    /// wait as a timeout.
    pub max_block: u64,
    /// Protocol position.
    pub phase: WaitPhase,
}

impl TxInclusionWaiter {
    /// Starts a wait for `hash`. The first duty of the driver is an
    /// immediate poll, before subscribing to block headers: a transaction
    /// that already landed resolves the wait without any subscription.
    pub fn new(hash: TxHash, max_block: u64) -> (w: Self)
        ensures
            w.hash == hash,
            w.max_block == max_block,
            w.phase == (WaitPhase::Polling { current_block: None }),
    {
        TxInclusionWaiter { hash, max_block, phase: WaitPhase::Polling { current_block: None } }
    }

    /// Reports the result of a poll: the found item together with the
    /// block it was included in, or `None` if the transaction is not yet
    /// on-chain.
    ///
    /// A found item always resolves the wait, even at or past the deadline:
    /// the poll at the deadline block is the last chance. A missing item
    /// times out once the block that triggered the poll is numbered
    /// `max_block` or higher; otherwise the wait continues with the next
    /// block.
    pub fn on_poll_result<T>(&mut self, found: Option<(T, u64)>) -> (d: TxWaitDecision<T>)
        requires
            old(self).phase matches WaitPhase::Polling { .. },
        ensures
            final(self).hash == old(self).hash,
            final(self).max_block == old(self).max_block,
            match found {
                Some((item, block)) => d == (TxWaitDecision::Found { item, block })
                    && final(self).phase is Finished,
                None => match old(self).phase {
                    WaitPhase::Polling { current_block } => match current_block {
                        Some(b) => if b >= old(self).max_block {
                            d == (TxWaitDecision::<T>::TimedOut { block: b }) && final(self).phase is Finished
                        } else {
                            d is Continue && final(self).phase is AwaitingBlock
                        },
                        None => d is Continue && final(self).phase is AwaitingBlock,
                    },
                    _ => false,
                },
            },
    {
        match found {
            Some((item, block)) => {
                self.phase = WaitPhase::Finished;
                TxWaitDecision::Found { item, block }
            },
            None => {
                let current_block = match self.phase {
                    WaitPhase::Polling { current_block } => current_block,
                    _ => None,
                };
                match current_block {
                    Some(b) if b >= self.max_block => {
                        self.phase = WaitPhase::Finished;
                        TxWaitDecision::TimedOut { block: b }
                    },
                    _ => {
                        self.phase = WaitPhase::AwaitingBlock;
                        TxWaitDecision::Continue
                    },
                }
            },
        }
    }

    /// Reports the next block header; the driver must then poll again.
    pub fn on_new_block(&mut self, number: u64)
        requires
            old(self).phase is AwaitingBlock,
        ensures
            final(self).hash == old(self).hash,
            final(self).max_block == old(self).max_block,
            final(self).phase == (WaitPhase::Polling { current_block: Some(number) }),
    {
        self.phase = WaitPhase::Polling { current_block: Some(number) };
    }
}

/// Whether every receipt in the sequence reports a successful execution.
pub open spec fn all_succeeded(receipts: Seq<Receipt>) -> bool {
    forall|i: int| 0 <= i < receipts.len() ==> receipts[i].status == 1
}

/// Whether every receipt in `receipts` reports a successful execution.
pub fn receipts_all_succeeded(receipts: &Vec<Receipt>) -> (r: bool)
    ensures
        r == all_succeeded(receipts@),
{
    let mut i: usize = 0;
    while i < receipts.len()
        invariant
            0 <= i <= receipts@.len(),
            forall|j: int| 0 <= j < i ==> receipts@[j].status == 1,
        decreases receipts@.len() - i,
    {
        if receipts[i].status != 1 {
            return false;
        }
        i = i + 1;
    }
    true
}

/// What one round of receipt fetching says about a bundle.
#[derive(Debug)]
pub enum ReceiptsClassification {
    /// No transaction of the bundle is on-chain yet.
    NoneFound,
    /// Some, but not all, transactions are on-chain: the bundle was broken
    /// apart. The receipts of the part that landed are returned.
    Partial { receipts: Vec<Receipt> },
    /// Every transaction is on-chain but at least one reverted.
    Reverted { receipts: Vec<Receipt> },
    /// Every transaction is on-chain and all succeeded; `block` is the
    /// block number of the first receipt.
    Complete { receipts: Vec<Receipt>, block: u64 },
}

/// Classifies one round of receipt fetching for a bundle with `expected`
/// flattened transaction hashes, of which `found` were on-chain.
///
/// Zero receipts mean the bundle has not landed; fewer receipts than
/// expected mean partial inclusion; a full set with any failing status is
/// a revert, which takes precedence over reporting success.
pub fn classify_receipts(expected: usize, found: Vec<Receipt>) -> (r: ReceiptsClassification)
    requires
        found@.len() <= expected,
    ensures
        r == if found@.len() == 0 {
            ReceiptsClassification::NoneFound
        } else if found@.len() < expected {
            ReceiptsClassification::Partial { receipts: found }
        } else if !all_succeeded(found@) {
            ReceiptsClassification::Reverted { receipts: found }
        } else {
            ReceiptsClassification::Complete { receipts: found, block: found@[0].block_number }
        },
{
    if found.len() == 0 {
        ReceiptsClassification::NoneFound
    } else if found.len() < expected {
        ReceiptsClassification::Partial { receipts: found }
    } else if !receipts_all_succeeded(&found) {
        ReceiptsClassification::Reverted { receipts: found }
    } else {
        let block = found[0].block_number;
        ReceiptsClassification::Complete { receipts: found, block }
    }
}

/// The outcome of feeding one round of receipts to a bundle wait.
#[derive(Debug)]
pub enum BundleWaitDecision {
    /// Every transaction landed and succeeded; `block` is the block of the
    /// first receipt.
    Landed { receipts: Vec<Receipt>, block: u64 },
    /// The deadline block was reached while no transaction was on-chain.
    TimedOut { block: u64 },
    /// A poll saw a mixed state: part of the bundle landed, part did not.
    Discarded { receipts: Vec<Receipt> },
    /// Every transaction landed but at least one reverted.
    Reverted { receipts: Vec<Receipt> },
    /// Nothing is known yet; the driver must wait for the next block.
    Continue,
}

/// Tracks a submitted bundle until every one of its flattened transaction
/// hashes is found on-chain, a poll sees a partial or reverted state, or a
/// block at or past `max_block` is seen while nothing has landed.
///
/// Precedence between the terminal states is fixed as follows: a poll that
/// observes a mixed state ends the wait as a discard, whatever the block
/// height; a timeout is reported only for a poll that found no receipts at
/// all at or past the deadline. A full set with a revert is reported as a
/// revert, never as partial success.
#[derive(Debug)]
pub struct BundleInclusionWaiter {
    /// The flattened transaction hashes the bundle depends on.
    pub hashes: Vec<TxHash>,
    /// The last block of the inclusion window.
    pub max_block: u64,
    /// Protocol position.
    pub phase: WaitPhase,
}

impl BundleInclusionWaiter {
    /// Starts a wait for a bundle whose flattened hashes are `hashes`.
    /// As for a single transaction, the driver's first duty is a poll
    /// before any block subscription.
    pub fn new(hashes: Vec<TxHash>, max_block: u64) -> (w: Self)
        ensures
            w.hashes == hashes,
            w.max_block == max_block,
            w.phase == (WaitPhase::Polling { current_block: None }),
    {
        BundleInclusionWaiter { hashes, max_block, phase: WaitPhase::Polling { current_block: None } }
    }

    /// Reports one round of receipt fetching: `found` holds a receipt for
    /// each of the bundle's hashes that is on-chain, so at most one per
    /// hash.
    pub fn on_receipts(&mut self, found: Vec<Receipt>) -> (d: BundleWaitDecision)
        requires
            old(self).phase matches WaitPhase::Polling { .. },
            found@.len() <= old(self).hashes@.len(),
        ensures
            final(self).hashes == old(self).hashes,
            final(self).max_block == old(self).max_block,
            if found@.len() == 0 {
                match old(self).phase {
                    WaitPhase::Polling { current_block } => match current_block {
                        Some(b) => if b >= old(self).max_block {
                            d == (BundleWaitDecision::TimedOut { block: b }) && final(self).phase is Finished
                        } else {
                            d is Continue && final(self).phase is AwaitingBlock
                        },
                        None => d is Continue && final(self).phase is AwaitingBlock,
                    },
                    _ => false,
                }
            } else if found@.len() < old(self).hashes@.len() {
                d == (BundleWaitDecision::Discarded { receipts: found }) && final(self).phase is Finished
            } else if !all_succeeded(found@) {
                d == (BundleWaitDecision::Reverted { receipts: found }) && final(self).phase is Finished
            } else {
                d == (BundleWaitDecision::Landed {
                    receipts: found,
                    block: found@[0].block_number,
                }) && final(self).phase is Finished
            },
    {
        match classify_receipts(self.hashes.len(), found) {
            ReceiptsClassification::NoneFound => {
                let current_block = match self.phase {
                    WaitPhase::Polling { current_block } => current_block,
                    _ => None,
                };
                match current_block {
                    Some(b) if b >= self.max_block => {
                        self.phase = WaitPhase::Finished;
                        BundleWaitDecision::TimedOut { block: b }
                    },
                    _ => {
                        self.phase = WaitPhase::AwaitingBlock;
                        BundleWaitDecision::Continue
                    },
                }
            },
            ReceiptsClassification::Partial { receipts } => {
                self.phase = WaitPhase::Finished;
                BundleWaitDecision::Discarded { receipts }
            },
            ReceiptsClassification::Reverted { receipts } => {
                self.phase = WaitPhase::Finished;
                BundleWaitDecision::Reverted { receipts }
            },
            ReceiptsClassification::Complete { receipts, block } => {
                self.phase = WaitPhase::Finished;
                BundleWaitDecision::Landed { receipts, block }
            },
        }
    }

    /// Reports the next block header; the driver must then poll again.
    pub fn on_new_block(&mut self, number: u64)
        requires
            old(self).phase is AwaitingBlock,
        ensures
            final(self).hashes == old(self).hashes,
            final(self).max_block == old(self).max_block,
            final(self).phase == (WaitPhase::Polling { current_block: Some(number) }),
    {
        self.phase = WaitPhase::Polling { current_block: Some(number) };
    }
}

} // verus!
