pub mod mw_auth;
pub mod mw_cookies;
pub mod mw_req_stamp;
pub mod mw_res_map;
