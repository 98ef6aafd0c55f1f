//! The errors of the web layer, and what the client is told of them.

use vstd::prelude::*;
use crate::handlers::handlers_rpc::RpcId;
use crate::middleware::mw_auth::CtxExtError;

verus! {

/// Why a JSON-RPC call failed in the router.
#[derive(Debug)]
pub enum RpcCallFailure {
    /// The params did not deserialize; the deserializer's message.
    ParamsParsing(String),
    /// The method takes params and the request had none.
    ParamsMissingButRequested,
    /// No handler is registered under the method name.
    MethodUnknown,
    /// A resource the handler needs was missing; the message.
    FromResources(String),
    /// The handler's result did not serialize; the message.
    HandlerResultSerialize(String),
    /// The handler failed; the message.
    Handler(String),
}

#[derive(Debug)]
pub enum Error {
    /// Login: no user has that username.
    LoginFailUsernameNotFound,
    /// Login: the password does not match the user's.
    LoginFailPwdNotMatching,
    CookiesNotInReqExt,
    ReqStampNotInReqExt,
    CtxExt(CtxExtError),
    /// The JSON-RPC request was rejected; the parser's message.
    RpcRequestParsing(String),
    /// The JSON-RPC call failed.
    RpcCall { id: RpcId, method: String, failure: RpcCallFailure },
}

/// What the client is told of an error: the name sent as `message`, and the
/// eventual `detail`.
#[allow(non_camel_case_types)]
#[derive(Debug)]
pub enum ClientError {
    LOGIN_FAIL,
    NO_AUTH,
    RPC_REQUEST_INVALID(String),
    RPC_REQUEST_METHOD_UNKNOWN(String),
    RPC_PARAMS_INVALID(String),
    SERVICE_ERROR,
}

/// The HTTP status answered for an error: 403 when a login failed or the
/// request could not be authenticated, 400 when the JSON-RPC request or its params are at fault,
/// 500 otherwise.
pub open spec fn client_status(e: Error) -> u16 {
    match e {
        Error::LoginFailUsernameNotFound => 403,
        Error::LoginFailPwdNotMatching => 403,
        Error::CtxExt(_) => 403,
        Error::RpcRequestParsing(_) => 400,
        Error::RpcCall { failure, .. } => match failure {
            RpcCallFailure::MethodUnknown => 400,
            RpcCallFailure::ParamsParsing(_) => 400,
            RpcCallFailure::ParamsMissingButRequested => 400,
            _ => 500,
        },
        _ => 500,
    }
}

/// The client error for an error. The detail of an unknown method or of
/// missing params names the method.
pub open spec fn client_error_of(e: Error) -> ClientError {
    match e {
        Error::LoginFailUsernameNotFound => ClientError::LOGIN_FAIL,
        Error::LoginFailPwdNotMatching => ClientError::LOGIN_FAIL,
        Error::CtxExt(_) => ClientError::NO_AUTH,
        Error::RpcRequestParsing(msg) => ClientError::RPC_REQUEST_INVALID(msg),
        Error::RpcCall { method, failure, .. } => match failure {
            RpcCallFailure::MethodUnknown => ClientError::RPC_REQUEST_METHOD_UNKNOWN(method),
            RpcCallFailure::ParamsParsing(msg) => ClientError::RPC_PARAMS_INVALID(msg),
            RpcCallFailure::ParamsMissingButRequested => ClientError::RPC_PARAMS_INVALID(method),
            _ => ClientError::SERVICE_ERROR,
        },
        _ => ClientError::SERVICE_ERROR,
    }
}

impl Error {
    /// The HTTP status and the client error answered for this error.
    pub fn client_status_and_error(&self) -> (r: (u16, ClientError))
        ensures
            r.0 == client_status(*self),
            r.1 == client_error_of(*self),
    {
        match self {
            Error::LoginFailUsernameNotFound => (403, ClientError::LOGIN_FAIL),
            Error::LoginFailPwdNotMatching => (403, ClientError::LOGIN_FAIL),
            Error::CtxExt(_) => (403, ClientError::NO_AUTH),
            Error::RpcRequestParsing(msg) => (400, ClientError::RPC_REQUEST_INVALID(msg.clone())),
            Error::RpcCall { method, failure, .. } => match failure {
                RpcCallFailure::MethodUnknown => (
                    400,
                    ClientError::RPC_REQUEST_METHOD_UNKNOWN(method.clone()),
                ),
                RpcCallFailure::ParamsParsing(msg) => (
                    400,
                    ClientError::RPC_PARAMS_INVALID(msg.clone()),
                ),
                RpcCallFailure::ParamsMissingButRequested => (
                    400,
                    ClientError::RPC_PARAMS_INVALID(method.clone()),
                ),
                _ => (500, ClientError::SERVICE_ERROR),
            },
            _ => (500, ClientError::SERVICE_ERROR),
        }
    }
}

/// The name of a client error, as sent in the `message` field.
pub open spec fn client_message(e: ClientError) -> Seq<char> {
    match e {
        ClientError::LOGIN_FAIL => "LOGIN_FAIL"@,
        ClientError::NO_AUTH => "NO_AUTH"@,
        ClientError::RPC_REQUEST_INVALID(_) => "RPC_REQUEST_INVALID"@,
        ClientError::RPC_REQUEST_METHOD_UNKNOWN(_) => "RPC_REQUEST_METHOD_UNKNOWN"@,
        ClientError::RPC_PARAMS_INVALID(_) => "RPC_PARAMS_INVALID"@,
        ClientError::SERVICE_ERROR => "SERVICE_ERROR"@,
    }
}

/// The detail of a client error, as sent in the `detail` field.
pub open spec fn client_detail(e: ClientError) -> Option<Seq<char>> {
    match e {
        ClientError::RPC_REQUEST_INVALID(d) => Some(d@),
        ClientError::RPC_REQUEST_METHOD_UNKNOWN(d) => Some(d@),
        ClientError::RPC_PARAMS_INVALID(d) => Some(d@),
        _ => None,
    }
}

impl ClientError {
    /// The name of this client error.
    pub fn message(&self) -> (m: String)
        ensures
            m@ == client_message(*self),
    {
        match self {
            ClientError::LOGIN_FAIL => String::from_str("LOGIN_FAIL"),
            ClientError::NO_AUTH => String::from_str("NO_AUTH"),
            ClientError::RPC_REQUEST_INVALID(_) => String::from_str("RPC_REQUEST_INVALID"),
            ClientError::RPC_REQUEST_METHOD_UNKNOWN(_) => String::from_str(
                "RPC_REQUEST_METHOD_UNKNOWN",
            ),
            ClientError::RPC_PARAMS_INVALID(_) => String::from_str("RPC_PARAMS_INVALID"),
            ClientError::SERVICE_ERROR => String::from_str("SERVICE_ERROR"),
        }
    }

    /// The detail of this client error, if it has one.
    pub fn detail(&self) -> (d: Option<String>)
        ensures
            match d {
                Some(s) => client_detail(*self) == Some(s@),
                None => client_detail(*self) is None,
            },
    {
        match self {
            ClientError::RPC_REQUEST_INVALID(s) => Some(s.clone()),
            ClientError::RPC_REQUEST_METHOD_UNKNOWN(s) => Some(s.clone()),
            ClientError::RPC_PARAMS_INVALID(s) => Some(s.clone()),
            _ => None,
        }
    }
}

/// Every error of the authentication context, whatever its cause (no token,
/// a token of the wrong format, an unknown user, a failed validation, ...),
/// is answered 403 with `NO_AUTH`; a failed login is answered 403 with
/// `LOGIN_FAIL`; an unknown method, or params missing or not parsing, 400
/// with `RPC_REQUEST_METHOD_UNKNOWN` or `RPC_PARAMS_INVALID` and the method
/// or the parser's message as detail; a rejected request 400 with
/// `RPC_REQUEST_INVALID` and the parser's message; anything else 500 with
/// `SERVICE_ERROR`.
pub proof fn law_client_errors(
    e: CtxExtError,
    id: RpcId,
    method: String,
    msg: String,
    other: String,
)
    ensures
        client_status(Error::CtxExt(e)) == 403,
        client_error_of(Error::CtxExt(e)) is NO_AUTH,
        client_message(client_error_of(Error::CtxExt(e))) == "NO_AUTH"@,
        client_detail(client_error_of(Error::CtxExt(e))) is None,
        client_status(Error::LoginFailUsernameNotFound) == 403,
        client_error_of(Error::LoginFailUsernameNotFound) is LOGIN_FAIL,
        client_status(Error::LoginFailPwdNotMatching) == 403,
        client_error_of(Error::LoginFailPwdNotMatching) is LOGIN_FAIL,
        client_status(Error::RpcRequestParsing(msg)) == 400,
        client_error_of(Error::RpcRequestParsing(msg)) == ClientError::RPC_REQUEST_INVALID(msg),
        client_status(Error::RpcCall { id, method, failure: RpcCallFailure::MethodUnknown }) == 400,
        client_error_of(Error::RpcCall { id, method, failure: RpcCallFailure::MethodUnknown })
            == ClientError::RPC_REQUEST_METHOD_UNKNOWN(method),
        client_status(
            Error::RpcCall { id, method, failure: RpcCallFailure::ParamsMissingButRequested },
        ) == 400,
        client_error_of(
            Error::RpcCall { id, method, failure: RpcCallFailure::ParamsMissingButRequested },
        ) == ClientError::RPC_PARAMS_INVALID(method),
        client_status(Error::RpcCall { id, method, failure: RpcCallFailure::ParamsParsing(msg) })
            == 400,
        client_error_of(Error::RpcCall { id, method, failure: RpcCallFailure::ParamsParsing(msg) })
            == ClientError::RPC_PARAMS_INVALID(msg),
        client_status(Error::RpcCall { id, method, failure: RpcCallFailure::Handler(other) })
            == 500,
        client_error_of(Error::RpcCall { id, method, failure: RpcCallFailure::Handler(other) })
            is SERVICE_ERROR,
        client_status(Error::CookiesNotInReqExt) == 500,
        client_status(Error::ReqStampNotInReqExt) == 500,
{
}

} // verus!
