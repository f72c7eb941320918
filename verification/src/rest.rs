use vstd::prelude::*;
use crate::decimal::{dec_str, u64_to_dec};
use vstd::string::StringExecFns;
use crate::types::{LogEntry, TxHash, U256Be};

verus! {

/// Appends one optional query field to an accumulated query string: a
/// missing value changes nothing; a present one appends `name=value`,
/// preceded by `&` unless it is the first field.
pub open spec fn with_field(acc: Seq<char>, name: Seq<char>, value: Option<u64>) -> Seq<char> {
    match value {
        None => acc,
        Some(v) => (if acc.len() == 0 {
            acc
        } else {
            acc + seq!['&']
        }) + name + seq!['='] + dec_str(v as nat),
    }
}

/// Appends one optional query field to `acc`; see [`with_field`].
fn push_field(acc: String, name: &str, value: Option<u64>) -> (r: String)
    ensures
        r@ == with_field(acc@, name@, value),
{
    let ghost acc0 = acc@;
    match value {
        None => acc,
        Some(v) => {
            proof {
                reveal_strlit("&");
                reveal_strlit("=");
                assert("&"@ =~= seq!['&']);
                assert("="@ =~= seq!['=']);
            }
            let sep = if acc.as_str().is_empty() {
                acc
            } else {
                acc.concat("&")
            };
            proof {
                assert(sep@ =~= (if acc0.len() == 0 {
                    acc0
                } else {
                    acc0 + seq!['&']
                }));
            }
            let with_name = sep.concat(name).concat("=");
            let num = u64_to_dec(v);
            let r = with_name.concat(num.as_str());
            proof {
                assert(r@ =~= with_field(acc0, name@, value));
            }
            r
        },
    }
}

/// Parameters of a history query: the block and timestamp window, page
/// size and offset. Absent fields are left to the server's defaults and
/// are omitted from the query string.
#[derive(Clone, Copy, Debug)]
pub struct GetEventHistoryParams {
    pub block_start: Option<u64>,
    pub block_end: Option<u64>,
    pub timestamp_start: Option<u64>,
    pub timestamp_end: Option<u64>,
    pub limit: Option<u32>,
    pub offset: Option<u32>,
}

/// The query string of a history request: the present fields in struct
/// order, camelCase names, `&`-separated `name=value` pairs.
pub open spec fn query_of(p: GetEventHistoryParams) -> Seq<char> {
    with_field(
        with_field(
            with_field(
                with_field(
                    with_field(
                        with_field(Seq::empty(), "blockStart"@, p.block_start),
                        "blockEnd"@,
                        p.block_end,
                    ),
                    "timestampStart"@,
                    p.timestamp_start,
                ),
                "timestampEnd"@,
                p.timestamp_end,
            ),
            "limit"@,
            match p.limit {
                Some(v) => Some(v as u64),
                None => None,
            },
        ),
        "offset"@,
        match p.offset {
            Some(v) => Some(v as u64),
            None => None,
        },
    )
}

impl GetEventHistoryParams {
    /// A request with every field absent.
    pub fn new() -> (p: Self)
        ensures
            p.block_start is None,
            p.block_end is None,
            p.timestamp_start is None,
            p.timestamp_end is None,
            p.limit is None,
            p.offset is None,
    {
        GetEventHistoryParams {
            block_start: None,
            block_end: None,
            timestamp_start: None,
            timestamp_end: None,
            limit: None,
            offset: None,
        }
    }

    /// Encodes the present fields as the relay's query string.
    pub fn to_query_string(&self) -> (r: String)
        ensures
            r@ == query_of(*self),
    {
        let mut acc = String::new();
        acc = push_field(acc, "blockStart", self.block_start);
        acc = push_field(acc, "blockEnd", self.block_end);
        acc = push_field(acc, "timestampStart", self.timestamp_start);
        acc = push_field(acc, "timestampEnd", self.timestamp_end);
        let limit = match self.limit {
            Some(v) => Some(v as u64),
            None => None,
        };
        acc = push_field(acc, "limit", limit);
        let offset = match self.offset {
            Some(v) => Some(v as u64),
            None => None,
        };
        acc = push_field(acc, "offset", offset);
        acc
    }
}

/// Metadata of the history endpoint: the block and timestamp range it
/// covers, how many events it holds, and the largest page it serves.
#[derive(Clone, Copy, Debug)]
pub struct EventHistoryInfo {
    pub min_block: u64,
    pub max_block: u64,
    pub min_timestamp: u64,
    pub max_timestamp: u64,
    pub count: u32,
    pub max_limit: u32,
}

/// One historical event: the block and time it was broadcast, and the
/// hint that was shared.
#[derive(Debug)]
pub struct EventHistory {
    pub block: u64,
    pub timestamp: u64,
    pub hint: EventHint,
}

/// The shared part of a historical event.
#[derive(Debug)]
pub struct EventHint {
    pub txs: Option<Vec<crate::events::Transaction>>,
    pub hash: TxHash,
    pub logs: Option<Vec<LogEntry>>,
    pub gas_used: Option<U256Be>,
    pub mev_gas_price: Option<U256Be>,
}

/// Addresses the relay's REST endpoints under one base URL.
#[derive(Debug)]
pub struct RestClient {
    /// Base URL, without a trailing slash.
    pub base_url: String,
}

impl RestClient {
    pub fn new(base_url: String) -> (c: Self)
        ensures
            c.base_url == base_url,
    {
        RestClient { base_url }
    }

    /// The full request URL for `path` under the client's base URL, with
    /// the given query string (possibly empty) after the `?`.
    pub fn request_url(&self, path: &str, query: &str) -> (r: String)
        ensures
            r@ == self.base_url@ + seq!['/'] + path@ + seq!['?'] + query@,
    {
        proof {
            reveal_strlit("/");
            reveal_strlit("?");
            assert("/"@ =~= seq!['/']);
            assert("?"@ =~= seq!['?']);
        }
        let r = self.base_url.clone().concat("/").concat(path).concat("?").concat(query);
        proof {
            assert(r@ =~= self.base_url@ + seq!['/'] + path@ + seq!['?'] + query@);
        }
        r
    }
}

} // verus!
