use vstd::prelude::*;
use crate::error::Error;

verus! {

/// The fixed endpoints of one supported relay deployment: the event
/// stream URL and the JSON-RPC API URL, keyed by chain id.
#[derive(Clone, Copy, Debug)]
pub struct MevShareNetwork {
    /// The chain id this deployment serves.
    pub chain_id: u64,
    /// Base URL of the server-sent-event stream.
    pub stream_url: &'static str,
    /// Base URL of the JSON-RPC API.
    pub api_url: &'static str,
}

impl MevShareNetwork {
    /// Maps a chain id to its relay deployment: mainnet (1) and Goerli
    /// (5) are supported; any other chain id is rejected at construction.
    pub fn try_from(chain_id: u64) -> (r: Result<MevShareNetwork, Error>)
        ensures
            match r {
                Ok(n) => (chain_id == 1 || chain_id == 5) && n.chain_id == chain_id && if chain_id
                    == 1 {
                    n.stream_url@ == "https://mev-share.flashbots.net"@ && n.api_url@
                        == "https://relay.flashbots.net"@
                } else {
                    n.stream_url@ == "https://mev-share-goerli.flashbots.net"@ && n.api_url@
                        == "https://relay-goerli.flashbots.net"@
                },
                Err(e) => chain_id != 1 && chain_id != 5 && e == Error::UnsupportedNetwork(
                    chain_id,
                ),
            },
    {
        if chain_id == 1 {
            Ok(
                MevShareNetwork {
                    chain_id: 1,
                    stream_url: "https://mev-share.flashbots.net",
                    api_url: "https://relay.flashbots.net",
                },
            )
        } else if chain_id == 5 {
            Ok(
                MevShareNetwork {
                    chain_id: 5,
                    stream_url: "https://mev-share-goerli.flashbots.net",
                    api_url: "https://relay-goerli.flashbots.net",
                },
            )
        } else {
            Err(Error::UnsupportedNetwork(chain_id))
        }
    }
}

} // verus!
