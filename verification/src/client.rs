//! The calls to the daemon's RPC interface: what is asked, what is answered,
//! and how an answer is judged before it is decoded.

use vstd::prelude::*;

verus! {

/// The daemon's answer to `get_info`.
#[derive(Clone, Copy, Debug)]
pub struct InfoResponse {
    pub block_size_limit: u64,
    pub block_size_median: u64,
    pub block_weight_limit: u64,
    pub block_weight_median: u64,
    pub cumulative_difficulty: u64,
    pub database_size: u64,
    pub difficulty: u64,
    pub free_space: u64,
    pub grey_peerlist_size: u64,
    pub height: u64,
    pub incoming_connections_count: u64,
    pub offline: bool,
    pub outgoing_connections_count: u64,
    pub rpc_connections_count: u64,
    pub synchronized: bool,
    pub target: u64,
    pub target_height: u64,
    pub tx_count: u64,
    pub tx_pool_size: u64,
    pub untrusted: bool,
    pub white_peerlist_size: u64,
}

/// The parameters of `get_block_headers_range`: the first and the last height
/// of the range, both included.
#[derive(Clone, Copy, Debug, PartialEq, Eq, Structural)]
pub struct BlockHeadersRangeRequest {
    pub start_height: u64,
    pub end_height: u64,
}

/// What the exporter reads of a block header.
#[derive(Clone, Copy, Debug)]
pub struct BlockHeader {
    pub block_size: u64,
    pub num_txes: u64,
    pub orphan_status: bool,
    pub reward: u64,
}

/// The daemon's answer to `get_block_headers_range`.
#[derive(Clone, Debug)]
pub struct BlockHeadersRangeResponse {
    pub headers: Vec<BlockHeader>,
    pub untrusted: bool,
}

/// The counters of the transaction pool.
#[derive(Clone, Copy, Debug)]
pub struct TransactionPoolStats {
    pub bytes_max: u64,
    pub bytes_med: u64,
    pub bytes_min: u64,
    pub bytes_total: u64,
    pub num_10m: u64,
    pub num_double_spends: u64,
    pub num_failing: u64,
    pub num_not_relayed: u64,
    pub oldest: u64,
    pub txs_total: u64,
}

/// The daemon's answer to `get_transaction_pool_stats`.
#[derive(Clone, Copy, Debug)]
pub struct TransactionPoolStatsResponse {
    pub pool_stats: TransactionPoolStats,
    pub untrusted: bool,
}

/// Why a call to the daemon failed.
#[derive(Debug)]
pub enum ClientError {
    /// The request could not be sent or the response could not be read; the
    /// field is the transport's own description of the failure.
    HttpClient(String),
    /// The result did not have the expected shape; the field is the decoder's
    /// own description of the failure.
    ResponseDeserialization(String),
    /// The response holds no result.
    NoResult,
    /// The result's status is missing or is not `OK`.
    UnexpectedStatus,
}

/// How a response wraps its result.
#[derive(Clone, Copy, Debug, PartialEq, Eq, Structural)]
pub enum Envelope {
    /// A JSON-RPC response: the result is the member `result` of the response.
    JsonRpc,
    /// A plain response: the response is the result.
    Plain,
}

/// A call to the daemon: where the request is posted, the JSON-RPC method
/// and parameters where it is a JSON-RPC call, and how the response wraps its
/// result.
#[derive(Debug)]
pub struct Call {
    pub url: String,
    pub method: Option<&'static str>,
    pub params: Option<BlockHeadersRangeRequest>,
    pub envelope: Envelope,
}

/// What a [`Call`] holds.
pub struct CallView {
    pub url: Seq<char>,
    pub method: Option<Seq<char>>,
    pub params: Option<BlockHeadersRangeRequest>,
    pub envelope: Envelope,
}

impl View for Call {
    type V = CallView;

    open spec fn view(&self) -> CallView {
        CallView {
            url: self.url@,
            method: match self.method {
                Some(method) => Some(method@),
                None => None,
            },
            params: self.params,
            envelope: self.envelope,
        }
    }
}

/// A JSON-RPC call of `method` at a daemon's base URL.
pub open spec fn json_rpc_call(
    base_url: Seq<char>,
    method: Seq<char>,
    params: Option<BlockHeadersRangeRequest>,
) -> CallView {
    CallView {
        url: base_url + "/json_rpc"@,
        method: Some(method),
        params,
        envelope: Envelope::JsonRpc,
    }
}

/// A plain call of `path` at a daemon's base URL.
pub open spec fn plain_call(base_url: Seq<char>, path: Seq<char>) -> CallView {
    CallView { url: base_url + path, method: None, params: None, envelope: Envelope::Plain }
}

/// The daemon's address.
#[derive(Clone, Debug)]
pub struct Client {
    base_url: String,
}

impl Client {
    /// The URL that the paths of the calls are appended to.
    pub closed spec fn base(&self) -> Seq<char> {
        self.base_url@
    }

    /// A client of the daemon at `base_url`.
    pub fn new(base_url: String) -> (client: Client)
        ensures
            client.base() == base_url@,
    {
        Client { base_url }
    }

    /// The URL that the paths of the calls are appended to.
    pub fn base_url(&self) -> (url: &str)
        ensures
            url@ == self.base(),
    {
        self.base_url.as_str()
    }

    fn url(&self, path: &str) -> (url: String)
        ensures
            url@ == self.base() + path@,
    {
        let mut url = self.base_url.clone();
        url.append(path);
        url
    }

    /// The call that asks for the node's info.
    pub fn get_info(&self) -> (call: Call)
        ensures
            call@ == json_rpc_call(self.base(), "get_info"@, None),
    {
        Call {
            url: self.url("/json_rpc"),
            method: Some("get_info"),
            params: None,
            envelope: Envelope::JsonRpc,
        }
    }

    /// The call that asks for the headers of a range of heights.
    pub fn get_block_headers_range(&self, req: BlockHeadersRangeRequest) -> (call: Call)
        ensures
            call@ == json_rpc_call(self.base(), "get_block_headers_range"@, Some(req)),
    {
        Call {
            url: self.url("/json_rpc"),
            method: Some("get_block_headers_range"),
            params: Some(req),
            envelope: Envelope::JsonRpc,
        }
    }

    /// The call that asks for the counters of the transaction pool.
    pub fn get_transaction_pool_stats(&self) -> (call: Call)
        ensures
            call@ == plain_call(self.base(), "/get_transaction_pool_stats"@),
    {
        Call {
            url: self.url("/get_transaction_pool_stats"),
            method: None,
            params: None,
            envelope: Envelope::Plain,
        }
    }
}

/// A JSON value of `serde_json`.
#[verifier::external_type_specification]
#[verifier::external_body]
pub struct ExJsonValue(serde_json::Value);

/// What `serde_json::Value::get` finds in a value under a key: the member of
/// that name where the value is an object that has one.
pub uninterp spec fn json_member(value: serde_json::Value, key: Seq<char>) -> Option<
    serde_json::Value,
>;

/// What `serde_json::Value::as_str` finds in a value: its text where the
/// value is a string.
pub uninterp spec fn json_text(value: serde_json::Value) -> Option<Seq<char>>;

/// Calls `serde_json::Value::get` with a key. What it finds is a function of
/// the value and the key, named [`json_member`].
#[verifier::external_body]
fn member<'a>(value: &'a serde_json::Value, key: &str) -> (found: Option<&'a serde_json::Value>)
    ensures
        match found {
            Some(member) => json_member(*value, key@) == Some(*member),
            None => json_member(*value, key@) is None,
        },
{
    value.get(key)
}

/// Calls `serde_json::Value::as_str`. What it finds is a function of the
/// value, named [`json_text`].
#[verifier::external_body]
fn text<'a>(value: &'a serde_json::Value) -> (found: Option<&'a str>)
    ensures
        match found {
            Some(text) => json_text(*value) == Some(text@),
            None => json_text(*value) is None,
        },
{
    value.as_str()
}

/// The result that a response holds: its member `result` in a JSON-RPC
/// envelope, the response itself in a plain one.
pub open spec fn selected(envelope: Envelope, response: serde_json::Value) -> Option<
    serde_json::Value,
> {
    match envelope {
        Envelope::JsonRpc => json_member(response, "result"@),
        Envelope::Plain => Some(response),
    }
}

/// The status that a result carries: the text of its member `status`.
pub open spec fn status_of(result: serde_json::Value) -> Option<Seq<char>> {
    match json_member(result, "status"@) {
        Some(status) => json_text(status),
        None => None,
    }
}

/// Whether a status lets the result through: it has to be there and to be
/// `OK`.
pub open spec fn status_is_ok(status: Option<Seq<char>>) -> bool {
    status == Some("OK"@)
}

/// What a response is judged to hold: its result where the status of the
/// result is `OK`; `NoResult` where it holds no result, and `UnexpectedStatus`
/// for every other or missing status.
pub open spec fn opened(envelope: Envelope, response: serde_json::Value) -> Result<
    serde_json::Value,
    ClientError,
> {
    match selected(envelope, response) {
        None => Err(ClientError::NoResult),
        Some(result) => if status_is_ok(status_of(result)) {
            Ok(result)
        } else {
            Err(ClientError::UnexpectedStatus)
        },
    }
}

/// Judges the status that a result carries: see [`status_is_ok`].
pub fn check_status(status: Option<&str>) -> (outcome: Result<(), ClientError>)
    ensures
        match outcome {
            Ok(()) => status matches Some(text) && text@ == "OK"@,
            Err(e) => e == ClientError::UnexpectedStatus && !(status matches Some(text) && text@
                == "OK"@),
        },
{
    proof {
        reveal_strlit("OK");
    }
    match status {
        Some(text) => {
            if text.unicode_len() == 2 && text.get_char(0) == 'O' && text.get_char(1) == 'K' {
                assert(text@ =~= "OK"@);
                Ok(())
            } else {
                Err(ClientError::UnexpectedStatus)
            }
        },
        None => Err(ClientError::UnexpectedStatus),
    }
}

impl Envelope {
    /// Takes the result out of a response and lets it through where its
    /// status is `OK`: see [`opened`]. The result is still to be decoded.
    pub fn open<'a>(self, response: &'a serde_json::Value) -> (outcome: Result<
        &'a serde_json::Value,
        ClientError,
    >)
        ensures
            match outcome {
                Ok(result) => opened(self, *response) == Ok::<serde_json::Value, ClientError>(
                    *result,
                ),
                Err(e) => opened(self, *response) == Err::<serde_json::Value, ClientError>(e),
            },
    {
        let result = match self {
            Envelope::JsonRpc => match member(response, "result") {
                Some(result) => result,
                None => {
                    return Err(ClientError::NoResult);
                },
            },
            Envelope::Plain => response,
        };
        let status = match member(result, "status") {
            Some(status) => text(status),
            None => None,
        };
        match check_status(status) {
            Ok(()) => Ok(result),
            Err(e) => Err(e),
        }
    }
}

impl ClientError {
    /// The description of the error.
    pub open spec fn text(self) -> Seq<char> {
        match self {
            ClientError::HttpClient(e) => "HTTP client error: "@ + e@,
            ClientError::ResponseDeserialization(e) => "response deserialization error: "@ + e@,
            ClientError::NoResult => "result not found in the response"@,
            ClientError::UnexpectedStatus => "unexpected or missing status"@,
        }
    }

    /// The description of the error: see [`ClientError::text`].
    pub fn message(&self) -> (message: String)
        ensures
            message@ == self.text(),
    {
        match self {
            ClientError::HttpClient(e) => "HTTP client error: ".to_owned().concat(e.as_str()),
            ClientError::ResponseDeserialization(e) => "response deserialization error: ".to_owned().concat(
                e.as_str(),
            ),
            ClientError::NoResult => "result not found in the response".to_owned(),
            ClientError::UnexpectedStatus => "unexpected or missing status".to_owned(),
        }
    }
}

} // verus!
