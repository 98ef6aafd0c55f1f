//! The response mapper: when handling the request failed, the response is
//! replaced by the client error response.

use vstd::prelude::*;
use crate::error::{client_detail, client_error_of, client_message, client_status, Error};
use crate::handlers::handlers_rpc::{RpcId, RpcInfo};
use crate::utils::cookie::opt_string_view;
use uuid::Uuid;

verus! {

/// The JSON body of a client error response:
/// `{"id": id, "error": {"message": message, "data": {"req_uuid": req_uuid,
/// "detail": detail}}}`, where a missing id or detail is `null`.
pub struct ClientErrorBody {
    /// The id of the JSON-RPC request, if the request was one.
    pub id: Option<RpcId>,
    /// The name of the client error.
    pub message: String,
    /// The unique id of this response, for the server log.
    pub req_uuid: Uuid,
    pub detail: Option<String>,
}

/// A client error response: its HTTP status and body.
pub struct ClientErrorResponse {
    pub status: u16,
    pub body: ClientErrorBody,
}

pub open spec fn rpc_id_of(rpc_info: Option<&RpcInfo>) -> Option<RpcId> {
    match rpc_info {
        Some(info) => info.id,
        None => None,
    }
}

/// The response the client gets in place of the handler's one: none when the
/// request was handled without error (the response is kept), else the status
/// and client error for that error, with the id of the JSON-RPC request the
/// error arose in and the id of this response.
pub fn client_error_response(
    web_error: Option<&Error>,
    rpc_info: Option<&RpcInfo>,
    req_uuid: Uuid,
) -> (r: Option<ClientErrorResponse>)
    ensures
        web_error is None <==> r is None,
        web_error matches Some(e) ==> r matches Some(resp) && {
            &&& resp.status == client_status(*e)
            &&& resp.body.id == rpc_id_of(rpc_info)
            &&& resp.body.id == match rpc_info {
                Some(info) => info.id,
                None => None,
            }
            &&& resp.body.message@ == client_message(client_error_of(*e))
            &&& opt_string_view(resp.body.detail) == client_detail(client_error_of(*e))
            &&& resp.body.req_uuid == req_uuid
        },
{
    match web_error {
        None => None,
        Some(e) => {
            let (status, client_error) = e.client_status_and_error();
            let id = match rpc_info {
                Some(info) => match &info.id {
                    Some(id) => Some(id.duplicate()),
                    None => None,
                },
                None => None,
            };
            Some(
                ClientErrorResponse {
                    status,
                    body: ClientErrorBody {
                        id,
                        message: client_error.message(),
                        req_uuid,
                        detail: client_error.detail(),
                    },
                },
            )
        },
    }
}

/// The error response echoes the id of the JSON-RPC request unchanged, a
/// string id as much as a number or null, and has none for a request that was
/// not a JSON-RPC call.
pub proof fn law_error_response_echoes_request_id(info: RpcInfo, s: String, n: i64)
    ensures
        rpc_id_of(Some(&info)) == info.id,
        rpc_id_of(None) is None,
        rpc_id_of(Some(&RpcInfo { id: Some(RpcId::Text(s)), method: info.method })) == Some(
            RpcId::Text(s),
        ),
        rpc_id_of(Some(&RpcInfo { id: Some(RpcId::Number(n)), method: info.method })) == Some(
            RpcId::Number(n),
        ),
{
}

} // verus!
