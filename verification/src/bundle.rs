use vstd::prelude::*;
use crate::types::{Address, TxHash};

verus! {

/// Inclusion window for a bundle: the target block, and optionally the last
/// block in which inclusion may still happen. When `max_block` is absent the
/// window is the single target block.
#[derive(Clone, Debug)]
pub struct Inclusion {
    /// Target block number in which to include the bundle.
    pub block: u64,
    /// Maximum block height in which the bundle can be included.
    pub max_block: Option<u64>,
}

/// Conditions for receiving refunds, evaluated after the bundle is placed
/// in a block.
#[derive(Clone, Debug)]
pub struct Refund {
    /// Index of the entry in `body` to which the refund percentage applies.
    pub body_idx: u32,
    /// Minimum refund percentage required for this bundle to be eligible
    /// for use by another searcher.
    pub percent: u32,
}

/// How a refund should be paid if the bundle is used by another searcher.
#[derive(Clone, Debug)]
pub struct RefundConfig {
    /// The address that receives this portion of the refund.
    pub address: Address,
    /// Percentage of the refund to be paid to `address`.
    pub percent: u32,
}

/// Validity conditions attached to a bundle.
#[derive(Clone, Debug)]
pub struct Validity {
    pub refund: Vec<Refund>,
    pub refund_config: Vec<RefundConfig>,
}

/// A data-visibility hint: which parts of a submission may be shared with
/// third-party block builders.
#[derive(Clone, Copy, PartialEq, Eq, Structural, Debug)]
pub enum Hint {
    /// Share the calldata of the transaction.
    Calldata,
    /// Share the contract address of the transaction.
    ContractAddress,
    /// Share the 4-byte function selector of the transaction.
    FunctionSelector,
    /// Share the logs emitted by the transaction.
    Logs,
    /// Share the hashes of the transactions in the bundle.
    TxHash,
    TransactionHash,
    /// Share the hash of the bundle or transaction being sent.
    Hash,
}

/// A block builder that a submission may be shared with.
#[derive(Clone, Debug)]
pub enum Builder {
    Default,
    Flashbots,
    Rsync,
    BeaverBuild,
    Builder0x69,
    Titan,
    EigenPhi,
    BobaBuilder,
    Other(String),
}

/// Privacy settings for a submission: the hints to reveal and the builders
/// to share with. Absent collections mean "server default".
#[derive(Clone, Debug)]
pub struct Privacy {
    pub hints: Option<Vec<Hint>>,
    pub builders: Option<Vec<Builder>>,
}

/// Free-form origin tag attached to a bundle.
#[derive(Clone, Debug)]
pub struct Metadata {
    pub origin_id: Option<String>,
}

/// One element of a bundle body.
#[derive(Debug)]
pub enum Body {
    /// A transaction already known to the relay, referenced by hash.
    Tx { hash: TxHash },
    /// A fully signed transaction, ready to broadcast.
    Signed { tx: Vec<u8>, can_revert: bool },
    /// A nested sub-bundle.
    Bundle(Box<SendBundleParams>),
}

/// Parameters of a `mev_sendBundle` request: the bundle body plus its
/// inclusion window and optional validity, privacy and metadata settings.
#[derive(Debug)]
pub struct SendBundleParams {
    /// Bundle spec version understood by the relay.
    pub version: String,
    /// Conditions for the bundle to be considered for inclusion, evaluated
    /// before the bundle is placed in a block.
    pub inclusion: Inclusion,
    /// Transactions that make up the bundle.
    pub body: Vec<Body>,
    /// Conditions evaluated after the bundle is placed in a block.
    pub validity: Option<Validity>,
    /// Privacy settings. Mutually exclusive with `Body::Tx` elements: the
    /// relay rejects bundles that reference transactions by hash and also
    /// carry privacy settings. See [`SendBundleParams::check_privacy`].
    pub privacy: Option<Privacy>,
    /// Origin tag.
    pub metadata: Option<Metadata>,
}

/// Response to a `mev_sendBundle` request.
#[derive(Clone, Copy, Debug)]
pub struct SendBundleResponse {
    pub bundle_hash: TxHash,
}

/// Whether a body element is, or contains at any nesting depth, a
/// `Body::Tx` reference.
pub open spec fn body_has_tx_ref(b: Body) -> bool
    decreases b,
{
    match b {
        Body::Tx { .. } => true,
        Body::Signed { .. } => false,
        Body::Bundle(params) => bodies_have_tx_ref(params.body@),
    }
}

/// Whether any element of a body sequence is, or contains, a `Body::Tx`
/// reference.
pub open spec fn bodies_have_tx_ref(bodies: Seq<Body>) -> bool
    decreases bodies,
{
    exists|i: int| 0 <= i < bodies.len() && body_has_tx_ref(bodies[i])
}

/// Whether a body element respects the privacy rule: leaves always do,
/// and a nested bundle must itself be privacy-compatible.
pub open spec fn body_privacy_compatible(b: Body) -> bool
    decreases b,
{
    match b {
        Body::Bundle(params) => privacy_compatible(*params),
        _ => true,
    }
}

/// Whether every element of a body sequence respects the privacy rule.
pub open spec fn bodies_privacy_compatible(bodies: Seq<Body>) -> bool
    decreases bodies,
{
    forall|i: int| 0 <= i < bodies.len() ==> body_privacy_compatible(bodies[i])
}

/// A bundle may carry privacy settings only if no element of its body, at
/// any nesting depth, references a transaction by hash; the same rule
/// holds for every nested bundle and its own privacy settings.
pub open spec fn privacy_compatible(params: SendBundleParams) -> bool
    decreases params,
{
    (params.privacy is Some ==> !bodies_have_tx_ref(params.body@)) && bodies_privacy_compatible(
        params.body@,
    )
}

impl Body {
    /// Whether this element is, or contains at any depth, a `Body::Tx`.
    pub fn has_tx_ref(&self) -> (r: bool)
        ensures
            r == body_has_tx_ref(*self),
        decreases *self,
    {
        match self {
            Body::Tx { .. } => true,
            Body::Signed { .. } => false,
            Body::Bundle(params) => have_tx_ref(&params.body),
        }
    }
}

/// Whether any element of `bodies` is, or contains, a `Body::Tx`.
pub fn have_tx_ref(bodies: &Vec<Body>) -> (r: bool)
    ensures
        r == bodies_have_tx_ref(bodies@),
    decreases bodies@,
{
    let mut i: usize = 0;
    while i < bodies.len()
        invariant
            0 <= i <= bodies@.len(),
            forall|j: int| 0 <= j < i ==> !body_has_tx_ref(bodies@[j]),
        decreases bodies@.len() - i,
    {
        if bodies[i].has_tx_ref() {
            return true;
        }
        i = i + 1;
    }
    false
}

impl SendBundleParams {
    /// Whether this bundle, and every bundle nested in it, respects the
    /// mutual exclusion between privacy settings and `Body::Tx`
    /// references. The relay rejects bundles that violate it, so the
    /// client flags them before submission.
    pub fn check_privacy(&self) -> (r: bool)
        ensures
            r == privacy_compatible(*self),
        decreases *self,
    {
        let own_ok = match &self.privacy {
            None => true,
            Some(_) => !have_tx_ref(&self.body),
        };
        if !own_ok {
            return false;
        }
        let mut i: usize = 0;
        while i < self.body.len()
            invariant
                0 <= i <= self.body@.len(),
                forall|j: int| 0 <= j < i ==> body_privacy_compatible(self.body@[j]),
            decreases self.body@.len() - i,
        {
            let element_ok = match &self.body[i] {
                Body::Bundle(params) => params.check_privacy(),
                _ => true,
            };
            if !element_ok {
                return false;
            }
            i = i + 1;
        }
        true
    }

    /// The last block of the inclusion window: `max_block` when given,
    /// otherwise the target block itself.
    pub fn effective_max_block(&self) -> (r: u64)
        ensures
            r == match self.inclusion.max_block {
                Some(m) => m,
                None => self.inclusion.block,
            },
    {
        match self.inclusion.max_block {
            Some(m) => m,
            None => self.inclusion.block,
        }
    }
}

} // verus!
