use lib_web::error::{ClientError, Error, RpcCallFailure};
use lib_web::handlers::handlers_rpc::{
    parse_rpc_request, rpc_request_from_parsed, RpcId, RpcInfo, RpcRequest, RpcSuccessBody,
};
use lib_web::middleware::mw_auth::CtxExtError;
use lib_web::middleware::mw_req_stamp::ReqStamp;
use lib_web::middleware::mw_res_map::client_error_response;
use serde_json::Value;

fn json(s: &str) -> Value {
    serde_json::from_str(s).unwrap()
}

#[test]
fn rpc_without_auth_is_forbidden_no_auth() {
    let err = Error::CtxExt(CtxExtError::TokenNotInCookie);
    let uuid = uuid::Uuid::nil();
    let resp = client_error_response(Some(&err), None, uuid).unwrap();
    assert_eq!(resp.status, 403);
    assert_eq!(resp.body.message, "NO_AUTH");
    assert!(resp.body.id.is_none());
    assert!(resp.body.detail.is_none());
    assert_eq!(resp.body.req_uuid, uuid);
}

#[test]
fn rpc_method_unknown_is_bad_request_with_the_request_id() {
    let info = RpcInfo { id: Some(RpcId::Number(1)), method: "no_such_method".to_string() };
    let err = Error::RpcCall {
        id: RpcId::Number(1),
        method: "no_such_method".to_string(),
        failure: RpcCallFailure::MethodUnknown,
    };
    let resp = client_error_response(Some(&err), Some(&info), uuid::Uuid::nil()).unwrap();
    assert_eq!(resp.status, 400);
    assert_eq!(resp.body.message, "RPC_REQUEST_METHOD_UNKNOWN");
    assert!(matches!(resp.body.id, Some(RpcId::Number(1))));
    assert_eq!(resp.body.detail.as_deref(), Some("no_such_method"));
}

#[test]
fn rpc_params_missing_is_bad_request_params_invalid() {
    let info = RpcInfo { id: Some(RpcId::Number(1)), method: "create_agent".to_string() };
    let err = Error::RpcCall {
        id: RpcId::Number(1),
        method: "create_agent".to_string(),
        failure: RpcCallFailure::ParamsMissingButRequested,
    };
    let resp = client_error_response(Some(&err), Some(&info), uuid::Uuid::nil()).unwrap();
    assert_eq!(resp.status, 400);
    assert_eq!(resp.body.message, "RPC_PARAMS_INVALID");
    assert!(matches!(resp.body.id, Some(RpcId::Number(1))));
}

#[test]
fn other_errors_are_service_errors() {
    let (status, ce) = Error::CookiesNotInReqExt.client_status_and_error();
    assert_eq!(status, 500);
    assert!(matches!(ce, ClientError::SERVICE_ERROR));
    let err = Error::RpcCall {
        id: RpcId::Null,
        method: "m".to_string(),
        failure: RpcCallFailure::Handler("boom".to_string()),
    };
    assert_eq!(err.client_status_and_error().0, 500);
    let (status, ce) = Error::RpcRequestParsing("bad".to_string()).client_status_and_error();
    assert_eq!(status, 400);
    assert_eq!(ce.message(), "RPC_REQUEST_INVALID");
    assert_eq!(ce.detail().as_deref(), Some("bad"));
}

#[test]
fn no_error_keeps_the_response() {
    assert!(client_error_response(None, None, uuid::Uuid::nil()).is_none());
}

#[test]
fn parse_valid_rpc_request() {
    let req = parse_rpc_request(json(r#"{"jsonrpc": "2.0", "id": 1, "method": "list_agents"}"#))
        .unwrap();
    assert!(matches!(req.id, RpcId::Number(1)));
    assert_eq!(req.method, "list_agents");
    assert!(req.params.is_none());
    let info = RpcInfo::for_request(&req);
    assert!(matches!(info.id, Some(RpcId::Number(1))));
    assert_eq!(info.method, "list_agents");

    let req = parse_rpc_request(json(
        r#"{"jsonrpc": "2.0", "id": "a", "method": "create_agent", "params": {"data": {"name": "x"}}}"#,
    ))
    .unwrap();
    assert!(matches!(req.id, RpcId::Text(ref s) if s == "a"));
    assert_eq!(req.params, Some(json(r#"{"data": {"name": "x"}}"#)));
}

#[test]
fn parse_rejects_invalid_rpc_request() {
    assert!(matches!(
        parse_rpc_request(json(r#"{"id": 1, "method": "list_agents"}"#)),
        Err(Error::RpcRequestParsing(_))
    ));
    assert!(matches!(
        parse_rpc_request(json(r#"{"jsonrpc": "2.0", "id": 1}"#)),
        Err(Error::RpcRequestParsing(_))
    ));
    assert!(matches!(parse_rpc_request(json("[]")), Err(Error::RpcRequestParsing(_))));
}

#[test]
fn rpc_success_body_is_jsonrpc_2() {
    let body = RpcSuccessBody::new(RpcId::Number(2), json(r#"{"data": {"id": 5}}"#));
    assert_eq!(body.jsonrpc, "2.0");
    assert!(matches!(body.id, RpcId::Number(2)));
    assert_eq!(body.result, json(r#"{"data": {"id": 5}}"#));
}

#[test]
fn req_stamp_from_extension() {
    let stamp = ReqStamp { uuid: uuid::Uuid::nil(), time_in: time::OffsetDateTime::UNIX_EPOCH };
    let got = ReqStamp::from_extension(Some(stamp)).unwrap();
    assert_eq!(got.uuid, uuid::Uuid::nil());
    assert_eq!(got.time_in, time::OffsetDateTime::UNIX_EPOCH);
    assert!(matches!(ReqStamp::from_extension(None), Err(Error::ReqStampNotInReqExt)));
}

#[test]
fn parse_result_maps_to_request_or_parsing_error() {
    let req = RpcRequest { id: RpcId::Number(3), method: "get_agent".to_string(), params: None };
    let ok = rpc_request_from_parsed(Ok(req)).unwrap();
    assert!(matches!(ok.id, RpcId::Number(3)));
    assert_eq!(ok.method, "get_agent");
    assert!(matches!(
        rpc_request_from_parsed(Err("bad".to_string())),
        Err(Error::RpcRequestParsing(ref m)) if m == "bad"
    ));
}

#[test]
fn login_failures_are_forbidden_login_fail() {
    for err in [Error::LoginFailUsernameNotFound, Error::LoginFailPwdNotMatching] {
        let resp = client_error_response(Some(&err), None, uuid::Uuid::nil()).unwrap();
        assert_eq!(resp.status, 403);
        assert_eq!(resp.body.message, "LOGIN_FAIL");
        assert!(resp.body.detail.is_none());
    }
}
