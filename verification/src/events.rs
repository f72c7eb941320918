use vstd::prelude::*;
use vstd::slice::slice_index_get;
use crate::error::Error;
use crate::types::{Address, LogEntry, Selector, TxHash, U256Be};

verus! {

/// A transaction hint inside a relay event: recipient, function selector
/// and calldata, each shared only as far as the sender's privacy settings
/// allow.
#[derive(Clone, Debug)]
pub struct Transaction {
    /// Transaction recipient address.
    pub to: Option<Address>,
    /// 4-byte function selector.
    pub function_selector: Option<Selector>,
    /// Calldata of the transaction.
    pub call_data: Option<Vec<u8>>,
}

/// An event from the relay's stream: a transaction or bundle hash plus
/// whatever details were shared about it.
#[derive(Debug)]
pub struct MevShareEvent {
    /// Transaction or bundle hash.
    pub hash: TxHash,
    /// Logs emitted by the transaction or bundle.
    pub logs: Option<Vec<LogEntry>>,
    /// Transactions included in the bundle.
    pub txs: Option<Vec<Transaction>>,
    /// Change in coinbase value divided by gas used.
    pub mev_gas_price: Option<U256Be>,
    /// Gas used, rounded up to two significant digits.
    pub gas_used: Option<U256Be>,
}

impl MevShareEvent {
    /// Views this event as a single transaction, when it is one: an event
    /// with no transaction list, or with exactly one entry, is a
    /// transaction, and the hash, the lone entry (if any) and the first
    /// log are returned. An event listing more than one transaction is
    /// not necessarily a bundle, so it is left unclassified and `None` is
    /// returned.
    pub fn as_transaction(&self) -> (r: Option<(TxHash, Option<&Transaction>, Option<&LogEntry>)>)
        ensures
            match self.txs {
                None => r matches Some((h, t, _)) && h == self.hash && t is None,
                Some(txs) => if txs@.len() == 1 {
                    r matches Some((h, t, _)) && h == self.hash && (t matches Some(t0) && *t0
                        == txs@[0])
                } else {
                    r is None
                },
            },
            match r {
                Some((_, _, l)) => match self.logs {
                    Some(logs) => if logs@.len() > 0 {
                        l matches Some(l0) && *l0 == logs@[0]
                    } else {
                        l is None
                    },
                    None => l is None,
                },
                None => true,
            },
    {
        let log = match &self.logs {
            Some(logs) => if logs.len() > 0 {
                Some(slice_index_get(logs.as_slice(), 0))
            } else {
                None
            },
            None => None,
        };
        match &self.txs {
            None => Some((self.hash, None, log)),
            Some(txs) => {
                if txs.len() == 1 {
                    Some((self.hash, Some(slice_index_get(txs.as_slice(), 0)), log))
                } else {
                    None
                }
            },
        }
    }
}

/// One message of a server-sent-event stream, as the transport hands it
/// over: the connection-established signal, a message body, or a
/// transport failure described as text.
#[derive(Debug)]
pub enum SseEvent {
    /// The connection was established.
    Opened,
    /// A message arrived; the body text is carried.
    Message(String),
    /// The transport failed; the stream ends after this.
    Failed(String),
}

/// Dispatches one stream event to the consumer: the connection-opened
/// signal is filtered out, a message body is passed through for
/// deserialization, and a transport failure surfaces as an error item.
pub fn dispatch_sse_event(event: SseEvent) -> (r: Option<Result<String, Error>>)
    ensures
        match event {
            SseEvent::Opened => r is None,
            SseEvent::Message(body) => r == Some(Ok::<String, Error>(body)),
            SseEvent::Failed(message) => r == Some(
                Err::<String, Error>(Error::EventSource(message)),
            ),
        },
{
    match event {
        SseEvent::Opened => None,
        SseEvent::Message(body) => Some(Ok(body)),
        SseEvent::Failed(message) => Some(Err(Error::EventSource(message))),
    }
}

/// A wrapper for stream payloads that arrive under a `data` member.
#[derive(Debug)]
pub struct StreamResponse<T> {
    pub data: T,
}

/// Reads a 4-byte function selector out of loose bytes: exactly four
/// bytes yield a selector, anything else is rejected.
pub fn selector_from_bytes(bytes: &Vec<u8>) -> (r: Option<Selector>)
    ensures
        match r {
            Some(s) => bytes@.len() == 4 && s@ == bytes@,
            None => bytes@.len() != 4,
        },
{
    if bytes.len() == 4 {
        let s: Selector = [bytes[0], bytes[1], bytes[2], bytes[3]];
        proof {
            assert(s@ =~= bytes@);
        }
        Some(s)
    } else {
        None
    }
}

} // verus!
