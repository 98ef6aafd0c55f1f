//! The JSON-RPC entry point: parsing the request, capturing its id and
//! method, and framing the success response.

use vstd::prelude::*;
use crate::error::Error;
use serde_json::Value;

verus! {

#[verifier::external_type_specification]
#[verifier::external_body]
pub struct ExValue(serde_json::Value);

/// A JSON-RPC request id: a string, an integer, or null.
#[derive(Debug)]
pub enum RpcId {
    Text(String),
    Number(i64),
    Null,
}

impl RpcId {
    /// A copy of this id.
    pub fn duplicate(&self) -> (r: RpcId)
        ensures
            r == *self,
    {
        match self {
            RpcId::Text(s) => RpcId::Text(s.clone()),
            RpcId::Number(n) => RpcId::Number(*n),
            RpcId::Null => RpcId::Null,
        }
    }
}

/// A parsed JSON-RPC request.
pub struct RpcRequest {
    pub id: RpcId,
    pub method: String,
    pub params: Option<Value>,
}

/// RPC ID and Method Capture
/// Note: This is kept with the request so that the response mapper can use
///       it for logging and for the eventual JSON-RPC error response.
pub struct RpcInfo {
    pub id: Option<RpcId>,
    pub method: String,
}

/// The body of a successful JSON-RPC response.
pub struct RpcSuccessBody {
    pub jsonrpc: String,
    pub id: RpcId,
    pub result: Value,
}

/// What `RpcRequest::try_from` of `rpc_router` gives for a JSON value: the
/// request, or the message of the parsing error. It is a function of the
/// value alone.
pub uninterp spec fn rpc_request_parse(value: Value) -> Result<RpcRequest, Seq<char>>;

/// The parse result with the error message taken by its view.
pub open spec fn parsed_view(r: Result<RpcRequest, String>) -> Result<RpcRequest, Seq<char>> {
    match r {
        Ok(req) => Ok(req),
        Err(msg) => Err(msg@),
    }
}

/// `RpcRequest::try_from` of `rpc_router` (which checks `"jsonrpc": "2.0"`,
/// the method and the id), with the request's id converted to [`RpcId`] and
/// the parsing error to its message; its result is named
/// [`rpc_request_parse`].
#[verifier::external_body]
fn rpc_request_try_from(value: Value) -> (r: Result<RpcRequest, String>)
    ensures
        parsed_view(r) == rpc_request_parse(value),
{
    match rpc_router::RpcRequest::try_from(value) {
        Ok(req) => Ok(RpcRequest {
            id: match req.id {
                rpc_router::RpcId::String(s) => RpcId::Text(s.to_string()),
                rpc_router::RpcId::Number(n) => RpcId::Number(n),
                rpc_router::RpcId::Null => RpcId::Null,
            },
            method: req.method,
            params: req.params,
        }),
        Err(e) => Err(e.to_string()),
    }
}

/// What parsing a JSON-RPC request gives for a parse result: the request, or
/// a `RpcRequestParsing` error carrying the parser's message.
pub open spec fn rpc_request_result(parsed: Result<RpcRequest, Seq<char>>, r: Result<
    RpcRequest,
    Error,
>) -> bool {
    match parsed {
        Ok(req) => r == Ok::<RpcRequest, Error>(req),
        Err(msg) => r matches Err(Error::RpcRequestParsing(m)) && m@ == msg,
    }
}

/// Parse and validate the JSON-RPC request; a rejected request is a
/// `RpcRequestParsing` error carrying the parser's message.
pub fn parse_rpc_request(value: Value) -> (r: Result<RpcRequest, Error>)
    ensures
        rpc_request_result(rpc_request_parse(value), r),
{
    let parsed = rpc_request_try_from(value);
    rpc_request_from_parsed(parsed)
}

/// The outcome of a JSON-RPC request given the result of its parse.
pub fn rpc_request_from_parsed(parsed: Result<RpcRequest, String>) -> (r: Result<RpcRequest, Error>)
    ensures
        rpc_request_result(parsed_view(parsed), r),
        parsed matches Ok(req) ==> r matches Ok(q) && q.id == req.id && q.method == req.method
            && q.params == req.params,
        parsed matches Err(m) ==> r matches Err(Error::RpcRequestParsing(e)) && e@ == m@,
{
    match parsed {
        Ok(req) => Ok(req),
        Err(msg) => Err(Error::RpcRequestParsing(msg)),
    }
}

impl RpcInfo {
    /// The id and method of a request.
    pub fn for_request(req: &RpcRequest) -> (info: RpcInfo)
        ensures
            info.id == Some(req.id),
            info.method == req.method,
    {
        RpcInfo { id: Some(req.id.duplicate()), method: req.method.clone() }
    }
}

impl RpcSuccessBody {
    /// The JSON-RPC 2.0 response to the call `id`, with its result.
    pub fn new(id: RpcId, result: Value) -> (body: RpcSuccessBody)
        ensures
            body.jsonrpc@ == "2.0"@,
            body.id == id,
            body.result == result,
    {
        RpcSuccessBody { jsonrpc: String::from_str("2.0"), id, result }
    }
}

/// Parsing hands on the parser's request unchanged, id, method and params
/// alike, whatever the kind of id; a parser error becomes `RpcRequestParsing`
/// with the parser's message.
pub proof fn law_parsed_request_is_handed_on(
    parsed: Result<RpcRequest, Seq<char>>,
    r: Result<RpcRequest, Error>,
)
    requires
        rpc_request_result(parsed, r),
    ensures
        parsed matches Ok(req) ==> r matches Ok(q) && q.id == req.id && q.method == req.method
            && q.params == req.params,
        parsed matches Err(m) ==> r matches Err(Error::RpcRequestParsing(e)) && e@ == m,
{
}

} // verus!
