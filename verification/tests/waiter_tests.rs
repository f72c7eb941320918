use mev_share_client::error::Error;
use mev_share_client::pending::{conclude_bundle_wait, conclude_tx_wait};
use mev_share_client::types::Receipt;
use mev_share_client::waiter::{
    classify_receipts, BundleInclusionWaiter, BundleWaitDecision, ReceiptsClassification,
    TxInclusionWaiter, TxWaitDecision, WaitPhase,
};

/// A chain stub for transaction waits: a receipt that becomes visible at
/// a given block height (or never), and a run of block headers delivered
/// in increasing order.
struct TxProviderStub {
    receipt: Option<Receipt>,
    /// The stub reports the receipt once `height` reaches this value.
    visible_from: u64,
    /// Current height, advanced by each delivered block.
    height: u64,
    next_block: u64,
    subscribe_calls: u32,
}

impl TxProviderStub {
    fn poll(&self) -> Option<(Receipt, u64)> {
        match self.receipt {
            Some(r) if self.height >= self.visible_from => Some((r, r.block_number)),
            _ => None,
        }
    }

    fn next_block(&mut self) -> u64 {
        if self.subscribe_calls == 0 {
            self.subscribe_calls = 1;
        }
        let b = self.next_block;
        self.next_block += 1;
        self.height = b;
        b
    }
}

/// The driver loop an application runs around `TxInclusionWaiter`,
/// exercised here against stubs.
fn drive_tx(stub: &mut TxProviderStub, hash: [u8; 32], max_block: u64) -> Result<(Receipt, u64), Error> {
    let mut w = TxInclusionWaiter::new(hash, max_block);
    loop {
        match w.phase {
            WaitPhase::Polling { .. } => {
                let d = w.on_poll_result(stub.poll());
                if !matches!(d, TxWaitDecision::Continue) {
                    return conclude_tx_wait(hash, d);
                }
            }
            WaitPhase::AwaitingBlock => {
                let b = stub.next_block();
                w.on_new_block(b);
            }
            WaitPhase::Finished => unreachable!(),
        }
    }
}

#[test]
fn tx_receipt_on_first_poll_resolves_without_subscribing() {
    let hash = [1u8; 32];
    let receipt = Receipt {
        transaction_hash: hash,
        block_number: 90,
        status: 1,
    };
    let mut stub = TxProviderStub {
        receipt: Some(receipt),
        visible_from: 0,
        height: 0,
        next_block: 100,
        subscribe_calls: 0,
    };
    let out = drive_tx(&mut stub, hash, 110);
    let (r, block) = out.expect("receipt found on first poll");
    assert_eq!(r.block_number, 90);
    assert_eq!(block, 90);
    assert_eq!(stub.subscribe_calls, 0);
}

#[test]
fn tx_without_receipt_times_out_at_first_block_at_max() {
    let hash = [2u8; 32];
    let max_block = 105;
    let mut stub = TxProviderStub {
        receipt: None,
        visible_from: 0,
        height: 0,
        next_block: max_block,
        subscribe_calls: 0,
    };
    let out = drive_tx(&mut stub, hash, max_block);
    match out {
        Err(Error::TransactionTimeout(h, b)) => {
            assert_eq!(h, hash);
            assert_eq!(b, max_block);
        }
        other => panic!("expected a timeout, got {:?}", other.map(|(_, b)| b)),
    }
}

#[test]
fn tx_receipt_found_later_uses_receipt_block() {
    let hash = [3u8; 32];
    let receipt = Receipt {
        transaction_hash: hash,
        block_number: 102,
        status: 1,
    };
    let mut stub = TxProviderStub {
        receipt: Some(receipt),
        visible_from: 102,
        height: 0,
        next_block: 101,
        subscribe_calls: 0,
    };
    let out = drive_tx(&mut stub, hash, 110);
    let (_, block) = out.expect("receipt eventually found");
    assert_eq!(block, 102);
    assert_eq!(stub.subscribe_calls, 1);
}

#[test]
fn tx_reverted_receipt_is_a_revert_error() {
    let hash = [4u8; 32];
    let receipt = Receipt {
        transaction_hash: hash,
        block_number: 90,
        status: 0,
    };
    let mut stub = TxProviderStub {
        receipt: Some(receipt),
        visible_from: 0,
        height: 0,
        next_block: 100,
        subscribe_calls: 0,
    };
    match drive_tx(&mut stub, hash, 110) {
        Err(Error::TransactionRevert(r)) => assert_eq!(r.status, 0),
        _ => panic!("expected a revert"),
    }
}

/// A chain stub for bundle waits: per-hash receipts, each visible from a
/// given height onward.
struct BundleProviderStub {
    /// `(receipt, visible_from)` pairs.
    receipts: Vec<(Receipt, u64)>,
    height: u64,
    next_block: u64,
}

impl BundleProviderStub {
    fn poll(&self) -> Vec<Receipt> {
        self.receipts
            .iter()
            .filter(|(_, from)| self.height >= *from)
            .map(|(r, _)| *r)
            .collect()
    }

    fn next_block(&mut self) -> u64 {
        let b = self.next_block;
        self.next_block += 1;
        self.height = b;
        b
    }
}

fn drive_bundle(
    stub: &mut BundleProviderStub,
    hashes: Vec<[u8; 32]>,
    max_block: u64,
) -> Result<(Vec<Receipt>, u64), Error> {
    let mut w = BundleInclusionWaiter::new(hashes.clone(), max_block);
    loop {
        match w.phase {
            WaitPhase::Polling { .. } => {
                let d = w.on_receipts(stub.poll());
                if !matches!(d, BundleWaitDecision::Continue) {
                    return conclude_bundle_wait(hashes, d);
                }
            }
            WaitPhase::AwaitingBlock => {
                let b = stub.next_block();
                w.on_new_block(b);
            }
            WaitPhase::Finished => unreachable!(),
        }
    }
}

fn receipt(hash: [u8; 32], block_number: u64, status: u64) -> Receipt {
    Receipt {
        transaction_hash: hash,
        block_number,
        status,
    }
}

#[test]
fn bundle_with_late_partial_receipts_times_out_not_discards() {
    let hashes = vec![[1u8; 32], [2u8; 32], [3u8; 32]];
    let max_block = 105;
    // Two of the three transactions eventually land, but only after the
    // deadline block has been seen with nothing on-chain; the third never
    // lands, so the wait must end as a timeout, not a discard.
    let mut stub = BundleProviderStub {
        receipts: vec![
            (receipt(hashes[0], 106, 1), 106),
            (receipt(hashes[1], 106, 1), 106),
        ],
        height: 0,
        next_block: 100,
    };
    match drive_bundle(&mut stub, hashes.clone(), max_block) {
        Err(Error::BundleTimeout(hs, b)) => {
            assert_eq!(hs, hashes);
            assert_eq!(b, max_block);
        }
        _ => panic!("expected a timeout"),
    }
}

#[test]
fn bundle_with_one_reverted_receipt_reverts_with_all_receipts() {
    let hashes = vec![[1u8; 32], [2u8; 32], [3u8; 32]];
    let mut stub = BundleProviderStub {
        receipts: vec![
            (receipt(hashes[0], 100, 1), 0),
            (receipt(hashes[1], 100, 0), 0),
            (receipt(hashes[2], 100, 1), 0),
        ],
        height: 0,
        next_block: 100,
    };
    match drive_bundle(&mut stub, hashes, 110) {
        Err(Error::BundleRevert(rs)) => {
            assert_eq!(rs.len(), 3);
            assert_eq!(rs[1].status, 0);
        }
        _ => panic!("expected a revert"),
    }
}

#[test]
fn bundle_partially_on_chain_is_discarded_with_landed_receipts() {
    let hashes = vec![[1u8; 32], [2u8; 32], [3u8; 32]];
    let mut stub = BundleProviderStub {
        receipts: vec![
            (receipt(hashes[0], 100, 1), 0),
            (receipt(hashes[2], 100, 1), 0),
        ],
        height: 0,
        next_block: 100,
    };
    match drive_bundle(&mut stub, hashes, 110) {
        Err(Error::BundleDiscard(rs)) => assert_eq!(rs.len(), 2),
        _ => panic!("expected a discard"),
    }
}

#[test]
fn bundle_fully_landed_returns_first_receipt_block() {
    let hashes = vec![[1u8; 32], [2u8; 32]];
    let mut stub = BundleProviderStub {
        receipts: vec![
            (receipt(hashes[0], 104, 1), 0),
            (receipt(hashes[1], 105, 1), 0),
        ],
        height: 0,
        next_block: 100,
    };
    let (rs, block) = drive_bundle(&mut stub, hashes, 110).expect("bundle landed");
    assert_eq!(rs.len(), 2);
    assert_eq!(block, 104);
}

#[test]
fn bundle_landing_on_a_later_block_still_succeeds() {
    let hashes = vec![[1u8; 32]];
    let mut stub = BundleProviderStub {
        receipts: vec![(receipt(hashes[0], 103, 1), 103)],
        height: 0,
        next_block: 101,
    };
    let (rs, block) = drive_bundle(&mut stub, hashes, 110).expect("bundle landed");
    assert_eq!(rs.len(), 1);
    assert_eq!(block, 103);
}

#[test]
fn classification_distinguishes_the_four_states() {
    let r_ok = receipt([1u8; 32], 7, 1);
    let r_bad = receipt([2u8; 32], 7, 0);
    assert!(matches!(
        classify_receipts(2, Vec::new()),
        ReceiptsClassification::NoneFound
    ));
    assert!(matches!(
        classify_receipts(2, vec![r_ok]),
        ReceiptsClassification::Partial { .. }
    ));
    assert!(matches!(
        classify_receipts(2, vec![r_ok, r_bad]),
        ReceiptsClassification::Reverted { .. }
    ));
    match classify_receipts(2, vec![r_ok, r_ok]) {
        ReceiptsClassification::Complete { receipts, block } => {
            assert_eq!(receipts.len(), 2);
            assert_eq!(block, 7);
        }
        _ => panic!("expected a complete classification"),
    }
}
