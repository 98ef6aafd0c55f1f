//! Web layer of the application: the per-request cookie jar, the
//! authentication context resolution, the request stamp, the JSON-RPC entry
//! point and the mapping of errors to client responses.

pub mod error;
pub mod handlers;
pub mod middleware;
pub mod utils;
