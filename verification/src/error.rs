//! The unified internal error of the backend, and its classification
//! into what a client is allowed to see.
//!
//! Every fallible step of a request reports one of these variants.
//! Only the response mapper translates it to the wire, through
//! [`Error::client_status_and_error`]: a total, deterministic mapping
//! from the variant to a transport status and a coarse client code, so
//! internal detail can never leak into a response body.

use vstd::prelude::*;

use crate::model;

verus! {

/// Tagged union of all internal failure kinds.
#[derive(Debug)]
pub enum Error {
    // -- Login
    LoginFail,
    LoginFailUsernameNotFound,
    LoginFailUserHasNoPwd { user_id: i64 },
    LoginFailPwdNotMatching { user_id: i64 },
    // -- Auth
    AuthFailCtxNotInRequestExt,
    AuthFailNoAuthTokenCookie,
    AuthFailTokenWrongFormat,
    // -- RPC
    RpcMethodUnknown(String),
    RpcMissingParams { rpc_method: String },
    RpcFailJsonParams { rpc_method: String },
    // -- Modules
    Model(model::Error),
}

/// The externally visible error code. Clients never see more than one
/// of these four discriminants.
#[allow(non_camel_case_types)]
#[derive(Clone, Copy, Debug, PartialEq, Eq, Structural)]
pub enum ClientError {
    LOGIN_FAIL,
    NO_AUTH,
    INVALID_PARAMS,
    SERVICE_ERROR,
}

/// Is `e` a failure of the login flow?
pub open spec fn is_login_error(e: Error) -> bool {
    ||| e is LoginFail
    ||| e is LoginFailUsernameNotFound
    ||| e is LoginFailUserHasNoPwd
    ||| e is LoginFailPwdNotMatching
}

/// Is `e` a failure to resolve an authentication context?
pub open spec fn is_auth_error(e: Error) -> bool {
    ||| e is AuthFailCtxNotInRequestExt
    ||| e is AuthFailNoAuthTokenCookie
    ||| e is AuthFailTokenWrongFormat
}

/// Does `e` report a request for an entity that does not exist?
pub open spec fn is_entity_not_found(e: Error) -> bool {
    e matches Error::Model(me) && me is EntityNotFound
}

/// The classification: a pure, total function of the error's
/// discriminant to the transport status and client error code.
/// Discriminants not singled out fall to the last bucket.
pub open spec fn classify(e: Error) -> (u16, ClientError) {
    if is_login_error(e) {
        (403u16, ClientError::LOGIN_FAIL)
    } else if is_auth_error(e) {
        (403u16, ClientError::NO_AUTH)
    } else if is_entity_not_found(e) {
        (400u16, ClientError::INVALID_PARAMS)
    } else {
        (500u16, ClientError::SERVICE_ERROR)
    }
}

impl Error {
    /// Transport status and client error code for this error, exactly
    /// [`classify`]. Total: it answers for every variant.
    pub fn client_status_and_error(&self) -> (r: (u16, ClientError))
        ensures
            r == classify(*self),
    {
        match self {
            Error::LoginFail
            | Error::LoginFailUsernameNotFound
            | Error::LoginFailUserHasNoPwd { .. }
            | Error::LoginFailPwdNotMatching { .. } => (403, ClientError::LOGIN_FAIL),

            Error::AuthFailCtxNotInRequestExt
            | Error::AuthFailNoAuthTokenCookie
            | Error::AuthFailTokenWrongFormat => (403, ClientError::NO_AUTH),

            Error::Model(model::Error::EntityNotFound { .. }) => {
                (400, ClientError::INVALID_PARAMS)
            },

            _ => (500, ClientError::SERVICE_ERROR),
        }
    }

    /// The variant's name, as it appears in log lines.
    pub fn as_str(&self) -> (r: &'static str)
        ensures
            r@ == variant_name(*self),
    {
        match self {
            Error::LoginFail => "LoginFail",
            Error::LoginFailUsernameNotFound => "LoginFailUsernameNotFound",
            Error::LoginFailUserHasNoPwd { .. } => "LoginFailUserHasNoPwd",
            Error::LoginFailPwdNotMatching { .. } => "LoginFailPwdNotMatching",
            Error::AuthFailCtxNotInRequestExt => "AuthFailCtxNotInRequestExt",
            Error::AuthFailNoAuthTokenCookie => "AuthFailNoAuthTokenCookie",
            Error::AuthFailTokenWrongFormat => "AuthFailTokenWrongFormat",
            Error::RpcMethodUnknown(..) => "RpcMethodUnknown",
            Error::RpcMissingParams { .. } => "RpcMissingParams",
            Error::RpcFailJsonParams { .. } => "RpcFailJsonParams",
            Error::Model(..) => "Model",
        }
    }
}

impl ClientError {
    /// The code's name, as it appears on the wire and in log lines.
    pub fn as_str(&self) -> (r: &'static str)
        ensures
            r@ == client_error_name(*self),
    {
        match self {
            ClientError::LOGIN_FAIL => "LOGIN_FAIL",
            ClientError::NO_AUTH => "NO_AUTH",
            ClientError::INVALID_PARAMS => "INVALID_PARAMS",
            ClientError::SERVICE_ERROR => "SERVICE_ERROR",
        }
    }
}

/// The client error code's name as a sequence of characters.
pub open spec fn client_error_name(c: ClientError) -> Seq<char> {
    match c {
        ClientError::LOGIN_FAIL => "LOGIN_FAIL"@,
        ClientError::NO_AUTH => "NO_AUTH"@,
        ClientError::INVALID_PARAMS => "INVALID_PARAMS"@,
        ClientError::SERVICE_ERROR => "SERVICE_ERROR"@,
    }
}

/// The variant's name as a sequence of characters.
pub open spec fn variant_name(e: Error) -> Seq<char> {
    match e {
        Error::LoginFail => "LoginFail"@,
        Error::LoginFailUsernameNotFound => "LoginFailUsernameNotFound"@,
        Error::LoginFailUserHasNoPwd { .. } => "LoginFailUserHasNoPwd"@,
        Error::LoginFailPwdNotMatching { .. } => "LoginFailPwdNotMatching"@,
        Error::AuthFailCtxNotInRequestExt => "AuthFailCtxNotInRequestExt"@,
        Error::AuthFailNoAuthTokenCookie => "AuthFailNoAuthTokenCookie"@,
        Error::AuthFailTokenWrongFormat => "AuthFailTokenWrongFormat"@,
        Error::RpcMethodUnknown(..) => "RpcMethodUnknown"@,
        Error::RpcMissingParams { .. } => "RpcMissingParams"@,
        Error::RpcFailJsonParams { .. } => "RpcFailJsonParams"@,
        Error::Model(..) => "Model"@,
    }
}

impl Clone for Error {
    fn clone(&self) -> (r: Self)
        ensures
            r == *self,
    {
        match self {
            Error::LoginFail => Error::LoginFail,
            Error::LoginFailUsernameNotFound => Error::LoginFailUsernameNotFound,
            Error::LoginFailUserHasNoPwd { user_id } => {
                Error::LoginFailUserHasNoPwd { user_id: *user_id }
            },
            Error::LoginFailPwdNotMatching { user_id } => {
                Error::LoginFailPwdNotMatching { user_id: *user_id }
            },
            Error::AuthFailCtxNotInRequestExt => Error::AuthFailCtxNotInRequestExt,
            Error::AuthFailNoAuthTokenCookie => Error::AuthFailNoAuthTokenCookie,
            Error::AuthFailTokenWrongFormat => Error::AuthFailTokenWrongFormat,
            Error::RpcMethodUnknown(m) => Error::RpcMethodUnknown(m.clone()),
            Error::RpcMissingParams { rpc_method } => {
                Error::RpcMissingParams { rpc_method: rpc_method.clone() }
            },
            Error::RpcFailJsonParams { rpc_method } => {
                Error::RpcFailJsonParams { rpc_method: rpc_method.clone() }
            },
            Error::Model(me) => Error::Model(me.clone()),
        }
    }
}

impl From<model::Error> for Error {
    fn from(value: model::Error) -> (r: Self)
        ensures
            r == Error::Model(value),
    {
        Error::Model(value)
    }
}

impl vstd::std_specs::convert::FromSpecImpl<model::Error> for Error {
    open spec fn obeys_from_spec() -> bool {
        true
    }

    open spec fn from_spec(value: model::Error) -> Self {
        Error::Model(value)
    }
}

/// The classification is deterministic: two classifications of the
/// same error — two calls of [`Error::client_status_and_error`] on one
/// value — always yield the same `(status, ClientError)` pair.
pub proof fn lemma_classify_deterministic(e: Error, r1: (u16, ClientError), r2: (u16, ClientError))
    requires
        r1 == classify(e),
        r2 == classify(e),
    ensures
        r1 == r2,
{
}

/// Every error that is neither a login failure, nor an authentication
/// failure, nor an entity-not-found report, falls back to
/// `(500, SERVICE_ERROR)`; the classification never rejects a variant.
pub proof fn lemma_classify_fallback(e: Error)
    requires
        !is_login_error(e),
        !is_auth_error(e),
        !is_entity_not_found(e),
    ensures
        classify(e) == (500u16, ClientError::SERVICE_ERROR),
{
}

} // verus!
