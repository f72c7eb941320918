use vstd::prelude::*;
use crate::rpc::JsonRpcResponseError;
use crate::types::{Receipt, TxHash};

verus! {

/// A failure to move between JSON text and values. The offending text and
/// a description are carried as plain strings; the caller that performed
/// the (de)serialization fills them in.
#[derive(Debug)]
pub enum JsonError {
    /// Well-formed transport, malformed body: the response text could not
    /// be deserialized.
    Deserialization { text: String, message: String },
    /// A value could not be serialized.
    Serialization { message: String },
}

/// A failure of an authenticated JSON-RPC call to the relay.
///
/// The three ways a call can fail are kept distinct: a transport failure
/// (`Network`), a response body that is not valid JSON-RPC (`Json`), and a
/// well-formed JSON-RPC error reported by the relay (`Response`).
#[derive(Debug)]
pub enum RpcError {
    /// The response body could not be deserialized.
    Json(JsonError),
    /// The relay answered with a JSON-RPC error envelope.
    Response(JsonRpcResponseError),
    /// The request could not be signed.
    Signing(String),
    /// The signature header value was not a valid header.
    InvalidHeader(String),
    /// The HTTP request itself failed.
    Network(String),
}

/// A failure of a REST call to the relay's history endpoints.
#[derive(Debug)]
pub enum RestError {
    /// The response body could not be deserialized.
    Json(JsonError),
    /// The HTTP request failed or reported an error status.
    Network(String),
}

/// Everything that can go wrong in this crate.
///
/// `BundleDiscard` and `BundleRevert` are terminal outcomes of a completed
/// wait — legitimate classifications of on-chain state — while
/// `BundleTimeout` means the outcome was never learned; the three are
/// always distinct.
#[derive(Debug)]
pub enum Error {
    /// The bundle did not appear on-chain before its deadline block; the
    /// flattened hashes and the block that ended the wait are carried.
    BundleTimeout(Vec<TxHash>, u64),
    /// Every transaction of the bundle landed but at least one reverted;
    /// all receipts are carried.
    BundleRevert(Vec<Receipt>),
    /// Only part of the bundle landed; the receipts of the part that did
    /// are carried so the caller can reconcile state.
    BundleDiscard(Vec<Receipt>),
    /// The transaction did not appear on-chain before its deadline block.
    TransactionTimeout(TxHash, u64),
    /// The transaction landed but reverted.
    TransactionRevert(Receipt),
    /// The chain id maps to no known relay endpoints.
    UnsupportedNetwork(u64),
    /// The bundle carries privacy settings together with a `Body::Tx`
    /// reference, which the relay rejects.
    PrivacyConflict,
    /// Moving between JSON text and values failed.
    Json(JsonError),
    /// The chain provider failed.
    Provider(String),
    /// The event-stream connection failed.
    EventSource(String),
    /// An authenticated JSON-RPC call failed.
    Rpc(RpcError),
    /// A REST call failed.
    Rest(RestError),
}

} // verus!
