pub mod handlers_rpc;
