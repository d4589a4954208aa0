//! Web layer: per-request authentication, login, response mapping and
//! the RPC endpoint.

pub mod mw_auth;
pub mod mw_res_map;
pub mod routes_hello;
pub mod routes_login;
pub mod rpc;

use vstd::prelude::*;

verus! {

/// Name of the cookie that carries the raw authentication token.
pub const AUTH_TOKEN: &'static str = "auth-token";

} // verus!
