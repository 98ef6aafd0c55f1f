pub mod cookie;
pub mod cookie_jar;
pub mod cookies;
