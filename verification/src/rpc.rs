use vstd::prelude::*;
use vstd::string::StringExecFns;
use vstd::string::StringSliceAdditionalSpecFns;
use crate::error::RpcError;
use crate::hashing::{hex_lower, hex_of, keccak256, keccak_of};
use crate::decimal::{dec_str, u64_to_dec};
use crate::types::Address;

verus! {

/// The JSON-RPC methods offered by the relay.
#[derive(Clone, Copy, Debug)]
pub enum MevShareRequest {
    SendPrivateTransaction,
    SendBundle,
    SimBundle,
    GetUserStats,
    GetBundleStats,
}

/// The exact, case-sensitive method name of each relay request.
pub open spec fn method_name(m: MevShareRequest) -> Seq<char> {
    match m {
        MevShareRequest::SendPrivateTransaction => "eth_sendPrivateTransaction"@,
        MevShareRequest::SendBundle => "mev_sendBundle"@,
        MevShareRequest::SimBundle => "mev_simBundle"@,
        MevShareRequest::GetUserStats => "flashbots_getUserStatsV2"@,
        MevShareRequest::GetBundleStats => "flashbots_getBundleStatsV2"@,
    }
}

impl MevShareRequest {
    /// The method name to put in the JSON-RPC envelope.
    pub fn as_method_name(&self) -> (r: &'static str)
        ensures
            r@ == method_name(*self),
    {
        match self {
            MevShareRequest::SendPrivateTransaction => "eth_sendPrivateTransaction",
            MevShareRequest::SendBundle => "mev_sendBundle",
            MevShareRequest::SimBundle => "mev_simBundle",
            MevShareRequest::GetUserStats => "flashbots_getUserStatsV2",
            MevShareRequest::GetBundleStats => "flashbots_getBundleStatsV2",
        }
    }
}

/// A JSON-RPC 2.0 request envelope. `params` holds the parameters as
/// already-serialized JSON text; the caller serializes its parameter
/// values and the envelope around them.
#[derive(Debug)]
pub struct JsonRpcRequest {
    /// Always the protocol version `"2.0"`.
    pub jsonrpc: String,
    /// Request id; see [`MevShareRpcClient::next_request_id`].
    pub id: u64,
    /// Method name; see [`method_name`].
    pub method: String,
    /// The `params` member, as JSON text.
    pub params: String,
}

/// A successful JSON-RPC response: the `result` member as JSON text.
#[derive(Debug)]
pub struct JsonRpcResponseSuccess {
    pub jsonrpc: String,
    pub id: u64,
    pub result: String,
}

/// The error object of a JSON-RPC error response: either a bare message
/// or a code with a message.
#[derive(Debug)]
pub enum Error {
    Simple(String),
    Detailed(JsonRpcResponseDetailedError),
}

/// A JSON-RPC error object with the server-reported code and message.
#[derive(Debug)]
pub struct JsonRpcResponseDetailedError {
    pub code: i32,
    pub message: String,
}

/// A JSON-RPC error response envelope.
#[derive(Debug)]
pub struct JsonRpcResponseError {
    pub jsonrpc: Option<String>,
    pub id: Option<u64>,
    pub error: Error,
}

/// A JSON-RPC response envelope: success or error.
#[derive(Debug)]
pub enum JsonRpcResponse {
    Success(JsonRpcResponseSuccess),
    Error(JsonRpcResponseError),
}

/// Unwraps a JSON-RPC response envelope: a success yields its raw
/// `result` text, an error envelope surfaces as a protocol error.
pub fn unwrap_response(response: JsonRpcResponse) -> (r: Result<String, RpcError>)
    ensures
        match response {
            JsonRpcResponse::Success(s) => r == Ok::<String, RpcError>(s.result),
            JsonRpcResponse::Error(e) => r == Err::<String, RpcError>(RpcError::Response(e)),
        },
{
    match response {
        JsonRpcResponse::Success(s) => Ok(s.result),
        JsonRpcResponse::Error(e) => Err(RpcError::Response(e)),
    }
}

/// The request id issued by the `k`-th call on a client whose counter
/// started at `seed`; ids are handed out strictly in counter order.
pub open spec fn request_id_at(seed: u64, k: nat) -> int {
    seed + k
}

/// Request ids are never reused: distinct calls on the same client, in
/// whatever order they interleave, observe distinct counter positions and
/// therefore receive distinct ids.
pub proof fn lemma_request_ids_distinct(seed: u64, i: nat, j: nat)
    requires
        i != j,
    ensures
        request_id_at(seed, i) != request_id_at(seed, j),
{
}

/// Builds and numbers the authenticated JSON-RPC requests sent to the
/// relay. The request id increases strictly with every request; the
/// caller holds the client behind exclusive access (`&mut`), so two calls
/// can never observe the same counter value.
#[derive(Debug)]
pub struct MevShareRpcClient {
    /// The relay's JSON-RPC endpoint.
    pub base_url: String,
    /// The next request id to hand out.
    pub request_id: u64,
}

impl MevShareRpcClient {
    /// Creates a client for `base_url`. The seed is the starting request
    /// id; callers derive it from a coarse time-based value so that
    /// independently started clients are unlikely to collide. Nothing
    /// here depends on the seed's value.
    pub fn new(base_url: String, request_id_seed: u64) -> (c: Self)
        ensures
            c.base_url == base_url,
            c.request_id == request_id_seed,
    {
        MevShareRpcClient { base_url, request_id: request_id_seed }
    }

    /// Hands out the next request id and advances the counter, so ids
    /// strictly increase (not necessarily gaplessly from the caller's
    /// point of view) and are never reused.
    pub fn next_request_id(&mut self) -> (id: u64)
        requires
            old(self).request_id < u64::MAX,
        ensures
            id == old(self).request_id,
            final(self).request_id == old(self).request_id + 1,
            final(self).base_url == old(self).base_url,
    {
        let id = self.request_id;
        self.request_id = self.request_id + 1;
        id
    }

    /// Builds the JSON-RPC 2.0 envelope for `method` around
    /// already-serialized parameter JSON, consuming one request id.
    pub fn build_request(&mut self, method: MevShareRequest, params_json: String) -> (r:
        JsonRpcRequest)
        requires
            old(self).request_id < u64::MAX,
        ensures
            r.jsonrpc@ == "2.0"@,
            r.id == old(self).request_id,
            r.method@ == method_name(method),
            r.params == params_json,
            final(self).request_id == old(self).request_id + 1,
            final(self).base_url == old(self).base_url,
    {
        let id = self.next_request_id();
        JsonRpcRequest {
            jsonrpc: "2.0".to_owned(),
            id,
            method: method.as_method_name().to_owned(),
            params: params_json,
        }
    }
}

/// The serialized form of a request envelope: compact JSON with the
/// members in protocol order. `method` must be one of the fixed method
/// names and `params` already-serialized JSON, so no escaping is needed.
pub open spec fn envelope_json(id: nat, method: Seq<char>, params: Seq<char>) -> Seq<char> {
    "{\"jsonrpc\":\"2.0\",\"id\":"@ + dec_str(id) + ",\"method\":\""@ + method + "\",\"params\":"@
        + params + "}"@
}

/// Renders the envelope as the exact byte-for-byte JSON text that is
/// posted and signed.
pub fn render_request(r: &JsonRpcRequest) -> (s: String)
    ensures
        s@ == envelope_json(r.id as nat, r.method@, r.params@),
{
    let body = "{\"jsonrpc\":\"2.0\",\"id\":".to_owned().concat(u64_to_dec(r.id).as_str()).concat(
        ",\"method\":\"",
    ).concat(r.method.as_str()).concat("\",\"params\":").concat(r.params.as_str()).concat("}");
    body
}

/// The message that is signed for authentication: `0x` followed by the
/// lowercase hex encoding of the Keccak-256 digest of the serialized
/// request body.
pub fn signing_message(body_json: &str) -> (r: String)
    ensures
        r@ == seq!['0', 'x'] + hex_of(keccak_of(body_json.spec_bytes())@),
{
    let digest = keccak256(body_json.as_bytes());
    let hex = hex_lower(digest.as_slice());
    proof {
        reveal_strlit("0x");
        assert("0x"@ =~= seq!['0', 'x']);
    }
    let r = "0x".to_owned().concat(hex.as_str());
    r
}

/// The value of the authentication header attached to every RPC POST:
/// the signer address as `0x`-prefixed lowercase hex, a colon, and the
/// `0x`-prefixed signature hex handed in by the caller.
pub fn auth_header_value(address: &Address, signature_hex: &str) -> (r: String)
    ensures
        r@ == seq!['0', 'x'] + hex_of(address@) + seq![':', '0', 'x'] + signature_hex@,
{
    proof {
        reveal_strlit("0x");
        reveal_strlit(":0x");
        assert("0x"@ =~= seq!['0', 'x']);
        assert(":0x"@ =~= seq![':', '0', 'x']);
    }
    let addr_hex = hex_lower(address.as_slice());
    let r = "0x".to_owned().concat(addr_hex.as_str()).concat(":0x").concat(signature_hex);
    proof {
        assert(r@ =~= seq!['0', 'x'] + hex_of(address@) + seq![':', '0', 'x'] + signature_hex@);
    }
    r
}

} // verus!
