use ethers_core::utils::{hex, keccak256};
use mev_share_client::error::RpcError;
use mev_share_client::rpc::{
    auth_header_value, render_request, signing_message, unwrap_response, Error, JsonRpcResponse,
    JsonRpcResponseError, JsonRpcResponseSuccess, MevShareRequest, MevShareRpcClient,
};

#[test]
fn rendered_envelopes_are_exact_json() {
    let mut client = MevShareRpcClient::new("https://relay.flashbots.net".to_string(), 5);
    let request = client.build_request(
        MevShareRequest::SendBundle,
        "[{\"version\":\"v0.1\"}]".to_string(),
    );
    assert_eq!(
        render_request(&request),
        "{\"jsonrpc\":\"2.0\",\"id\":5,\"method\":\"mev_sendBundle\",\"params\":[{\"version\":\"v0.1\"}]}"
    );
}

#[test]
fn request_ids_are_never_reused() {
    let mut client = MevShareRpcClient::new("https://relay.flashbots.net".to_string(), 42);
    let first = client.next_request_id();
    let second = client.next_request_id();
    assert_eq!(first, 42);
    assert_eq!(second, 43);
    assert_ne!(first, second);
}

#[test]
fn build_request_numbers_consecutive_requests_distinctly() {
    let mut client = MevShareRpcClient::new("https://relay.flashbots.net".to_string(), 7);
    let a = client.build_request(MevShareRequest::SendBundle, "[{}]".to_string());
    let b = client.build_request(MevShareRequest::SimBundle, "[{}]".to_string());
    assert_eq!(a.jsonrpc, "2.0");
    assert_eq!(a.method, "mev_sendBundle");
    assert_eq!(a.params, "[{}]");
    assert_eq!(b.method, "mev_simBundle");
    assert_ne!(a.id, b.id);
    assert_eq!(a.id, 7);
    assert_eq!(b.id, 8);
}

#[test]
fn method_names_are_exact() {
    assert_eq!(
        MevShareRequest::SendPrivateTransaction.as_method_name(),
        "eth_sendPrivateTransaction"
    );
    assert_eq!(MevShareRequest::SendBundle.as_method_name(), "mev_sendBundle");
    assert_eq!(MevShareRequest::SimBundle.as_method_name(), "mev_simBundle");
    assert_eq!(
        MevShareRequest::GetUserStats.as_method_name(),
        "flashbots_getUserStatsV2"
    );
    assert_eq!(
        MevShareRequest::GetBundleStats.as_method_name(),
        "flashbots_getBundleStatsV2"
    );
}

#[test]
fn unwrap_response_surfaces_success_and_error_distinctly() {
    let ok = JsonRpcResponse::Success(JsonRpcResponseSuccess {
        jsonrpc: "2.0".to_string(),
        id: 1,
        result: "\"0xabc\"".to_string(),
    });
    assert_eq!(unwrap_response(ok).unwrap(), "\"0xabc\"");

    let err = JsonRpcResponse::Error(JsonRpcResponseError {
        jsonrpc: Some("2.0".to_string()),
        id: Some(1),
        error: Error::Simple("bad params".to_string()),
    });
    match unwrap_response(err) {
        Err(RpcError::Response(e)) => match e.error {
            Error::Simple(msg) => assert_eq!(msg, "bad params"),
            Error::Detailed(_) => panic!("expected the simple error form"),
        },
        _ => panic!("expected a protocol error"),
    }
}

#[test]
fn unwrap_response_keeps_detailed_error_codes() {
    let err = JsonRpcResponse::Error(JsonRpcResponseError {
        jsonrpc: None,
        id: None,
        error: Error::Detailed(mev_share_client::rpc::JsonRpcResponseDetailedError {
            code: -32602,
            message: "invalid params".to_string(),
        }),
    });
    match unwrap_response(err) {
        Err(RpcError::Response(e)) => match e.error {
            Error::Detailed(d) => {
                assert_eq!(d.code, -32602);
                assert_eq!(d.message, "invalid params");
            }
            Error::Simple(_) => panic!("expected the detailed error form"),
        },
        _ => panic!("expected a protocol error"),
    }
}

#[test]
fn stream_responses_expose_their_data() {
    let wrapped = mev_share_client::events::StreamResponse { data: 7u64 };
    assert_eq!(wrapped.data, 7);
}

#[test]
fn signing_message_hashes_the_body() {
    let body = "{\"jsonrpc\":\"2.0\",\"id\":1,\"method\":\"mev_sendBundle\",\"params\":[]}";
    let expected = format!("0x{}", hex::encode(keccak256(body.as_bytes())));
    assert_eq!(signing_message(body), expected);
    // A different body must give a different message: the digest depends
    // on the bytes, it is not the input handed back.
    assert_ne!(signing_message("{}"), format!("0x{}", hex::encode("{}")));
    assert_eq!(
        signing_message("{}"),
        format!("0x{}", hex::encode(keccak256("{}".as_bytes())))
    );
}

#[test]
fn auth_header_is_address_colon_signature() {
    let address = [0xabu8; 20];
    let signature = "1234deadbeef";
    let header = auth_header_value(&address, signature);
    let expected = format!("0x{}:0x{}", hex::encode(address), signature);
    assert_eq!(header, expected);
    assert_eq!(
        header,
        "0xabababababababababababababababababababab:0x1234deadbeef"
    );
}
