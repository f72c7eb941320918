use vstd::prelude::*;
use vstd::string::StringExecFns;
use crate::bundle::{Body, SendBundleParams, privacy_compatible};
use crate::error::Error;
use crate::networks::MevShareNetwork;
use crate::pending::{PendingBundle, PendingTransaction};
use crate::rest::RestClient;
use crate::rpc::MevShareRpcClient;
use crate::types::{Address, TxHash, U256Be};

verus! {

/// Parameters of an `eth_sendPrivateTransaction` request: the signed
/// transaction bytes, an optional inclusion deadline, and preferences.
#[derive(Debug)]
pub struct SendTransactionParams {
    /// The signed transaction bytes.
    pub tx: Vec<u8>,
    /// Maximum block number for the transaction to be included in.
    pub max_block_number: Option<u64>,
    /// Sharing preferences.
    pub preferences: Option<Preferences>,
}

/// Preferences of a private transaction submission.
#[derive(Debug)]
pub struct Preferences {
    pub fast: bool,
    pub privacy: crate::bundle::Privacy,
}

/// Parameters of a `mev_simBundle` request: optional overrides for the
/// simulated block environment. An absent field keeps the server default,
/// which is derived from the parent block.
#[derive(Clone, Copy, Debug)]
pub struct SimulateBundleParams {
    /// Block used for simulation state; defaults to the latest block.
    pub parent_block: Option<u64>,
    /// Defaults to the parent block's number plus one.
    pub block_number: Option<u64>,
    /// Defaults to the parent block's coinbase.
    pub coinbase: Option<Address>,
    /// Defaults to the parent block's timestamp plus twelve.
    pub timestamp: Option<u64>,
    /// Defaults to the parent block's gas limit.
    pub gas_limit: Option<u64>,
    /// Defaults to the parent block's base fee.
    pub base_fee: Option<U256Be>,
    /// Simulation timeout in seconds.
    pub timeout: Option<u64>,
}

impl SimulateBundleParams {
    /// A request with every override absent.
    pub fn new() -> (p: Self)
        ensures
            p.parent_block is None,
            p.block_number is None,
            p.coinbase is None,
            p.timestamp is None,
            p.gas_limit is None,
            p.base_fee is None,
            p.timeout is None,
    {
        SimulateBundleParams {
            parent_block: None,
            block_number: None,
            coinbase: None,
            timestamp: None,
            gas_limit: None,
            base_fee: None,
            timeout: None,
        }
    }

    /// Fills the parent block override, when absent, with the block just
    /// before `block_number` — the block a waited-for transaction landed
    /// in; an explicit override is kept.
    pub fn with_default_parent_block(self, block_number: u64) -> (r: Self)
        requires
            block_number >= 1,
        ensures
            r.parent_block == Some(
                match self.parent_block {
                    Some(b) => b,
                    None => (block_number - 1) as u64,
                },
            ),
            r.block_number == self.block_number,
            r.coinbase == self.coinbase,
            r.timestamp == self.timestamp,
            r.gas_limit == self.gas_limit,
            r.base_fee == self.base_fee,
            r.timeout == self.timeout,
    {
        let parent_block = match self.parent_block {
            Some(b) => b,
            None => block_number - 1,
        };
        SimulateBundleParams { parent_block: Some(parent_block), ..self }
    }
}

/// The result of a bundle simulation, as reported by the relay.
#[derive(Debug)]
pub struct SimulateBundleResponse {
    pub success: bool,
    pub error: Option<String>,
    pub state_block: u64,
    pub mev_gas_price: U256Be,
    pub profit: U256Be,
    pub refundable_value: U256Be,
    pub gas_used: U256Be,
    pub logs: Vec<BundleLogs>,
}

/// Logs of a simulated bundle, mirroring the bundle's nesting.
#[derive(Debug)]
pub struct BundleLogs {
    pub tx_logs: Option<Vec<crate::types::LogEntry>>,
    pub bundle_logs: Option<Vec<BundleLogs>>,
}

/// The hash referenced by the first body element, when that element is a
/// `Body::Tx`. A bundle headed by such a reference can only be simulated
/// once the referenced transaction is on-chain.
pub fn first_body_tx_ref(params: &SendBundleParams) -> (r: Option<TxHash>)
    ensures
        match r {
            Some(h) => params.body@.len() > 0 && (params.body@[0] matches Body::Tx { hash } && h
                == hash),
            None => params.body@.len() == 0 || !(params.body@[0] matches Body::Tx { .. }),
        },
{
    if params.body.len() == 0 {
        return None;
    }
    match vstd::slice::slice_index_get(params.body.as_slice(), 0) {
        Body::Tx { hash } => Some(*hash),
        _ => None,
    }
}

/// Replaces the first body element with the signed form of the
/// transaction it referenced, leaving everything else unchanged; used
/// before simulation, once the referenced transaction has landed and its
/// raw bytes are known.
pub fn substitute_first_signed(params: SendBundleParams, raw_tx: Vec<u8>) -> (r: SendBundleParams)
    requires
        params.body@.len() > 0,
    ensures
        r.body@ == params.body@.update(0, Body::Signed { tx: raw_tx, can_revert: false }),
        r.version == params.version,
        r.inclusion == params.inclusion,
        r.validity == params.validity,
        r.privacy == params.privacy,
        r.metadata == params.metadata,
{
    let mut params = params;
    params.body.set(0, Body::Signed { tx: raw_tx, can_revert: false });
    params
}

/// The relay client: the selected network, the authenticated JSON-RPC
/// client for submissions and simulations, and the REST client for the
/// history endpoints. The surrounding program supplies transport,
/// signing, and the chain provider.
#[derive(Debug)]
pub struct MevShareClient {
    /// The relay deployment matching the chain id.
    pub network: MevShareNetwork,
    /// JSON-RPC request builder, pointed at the network's API URL.
    pub rpc: MevShareRpcClient,
    /// REST client, pointed at the network's event-history base URL.
    pub rest: RestClient,
}

impl MevShareClient {
    /// Builds a client for the given chain id, rejecting unsupported
    /// chains. The REST base URL is the stream URL with `/api/v1`
    /// appended; the RPC client starts numbering requests at
    /// `request_id_seed`.
    pub fn new_with_chain_id(chain_id: u64, request_id_seed: u64) -> (r: Result<Self, Error>)
        ensures
            match r {
                Ok(c) => (chain_id == 1 || chain_id == 5) && c.network.chain_id == chain_id
                    && c.network.stream_url@ == (if chain_id == 1 {
                    "https://mev-share.flashbots.net"@
                } else {
                    "https://mev-share-goerli.flashbots.net"@
                }) && c.network.api_url@ == (if chain_id == 1 {
                    "https://relay.flashbots.net"@
                } else {
                    "https://relay-goerli.flashbots.net"@
                }) && c.rpc.base_url@ == c.network.api_url@ && c.rpc.request_id == request_id_seed
                    && c.rest.base_url@ == c.network.stream_url@ + "/api/v1"@,
                Err(e) => chain_id != 1 && chain_id != 5 && e == Error::UnsupportedNetwork(
                    chain_id,
                ),
            },
    {
        let network = match MevShareNetwork::try_from(chain_id) {
            Ok(n) => n,
            Err(e) => {
                return Err(e);
            },
        };
        let rest_url = network.stream_url.to_owned().concat("/api/v1");
        let api_url = network.api_url.to_owned();
        Ok(
            MevShareClient {
                network,
                rpc: MevShareRpcClient::new(api_url, request_id_seed),
                rest: RestClient::new(rest_url),
            },
        )
    }

    /// Checks a bundle before submission: a bundle that references a
    /// transaction by hash and also carries privacy settings is rejected,
    /// as the relay would reject it server-side.
    pub fn check_bundle(params: &SendBundleParams) -> (r: Result<(), Error>)
        ensures
            r is Ok <==> privacy_compatible(*params),
            r is Err ==> r == Err::<(), Error>(Error::PrivacyConflict),
    {
        if params.check_privacy() {
            Ok(())
        } else {
            Err(Error::PrivacyConflict)
        }
    }

    /// Pairs a relay-accepted private transaction with the deadline of
    /// its submission, yielding the pending handle whose inclusion the
    /// caller can wait for.
    pub fn pending_transaction(hash: TxHash, params: &SendTransactionParams) -> (p:
        PendingTransaction)
        ensures
            p.hash == hash,
            p.max_block == params.max_block_number,
    {
        PendingTransaction::new(hash, params.max_block_number)
    }

    /// Pairs a relay-accepted bundle with its submitted request, yielding
    /// the pending handle whose inclusion the caller can wait for.
    pub fn pending_bundle(bundle_hash: TxHash, request: SendBundleParams) -> (p: PendingBundle)
        ensures
            p.hash == bundle_hash,
            p.request == request,
    {
        PendingBundle::new(bundle_hash, request)
    }
}

} // verus!
