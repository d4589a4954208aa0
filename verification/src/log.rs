//! One structured log record per request.
//!
//! The record is pure assembly from what the request pipeline already
//! knows; emitting it is the transport's business, and must never
//! affect the request's outcome.

use vstd::prelude::*;

use crate::ctx::Ctx;
use crate::error::{client_error_name, variant_name, ClientError, Error};
use crate::json::JsonValue;
use crate::model;

verus! {

/// One audit line: correlation id, timestamp, principal, request
/// metadata, and the error detail that never reaches the client.
pub struct RequestLogLine {
    pub uuid: String,
    pub timestamp: u64,
    pub user_id: Option<u64>,
    pub req_path: String,
    pub req_method: String,
    pub client_error_type: Option<String>,
    pub error_type: Option<String>,
    pub error_data: Option<JsonValue>,
}

/// Is `v` one field under `key` holding the string `s`?
pub open spec fn is_one_str_field(v: JsonValue, key: Seq<char>, s: Seq<char>) -> bool {
    match v {
        JsonValue::Obj(fs) => {
            &&& fs@.len() == 1
            &&& fs@[0].0@ == key
            &&& fs@[0].1 matches JsonValue::Str(x) && x@ == s
        },
        _ => false,
    }
}

/// Is `v` one field under `key` holding the integer `i`?
pub open spec fn is_one_int_field(v: JsonValue, key: Seq<char>, i: i64) -> bool {
    match v {
        JsonValue::Obj(fs) => {
            &&& fs@.len() == 1
            &&& fs@[0].0@ == key
            &&& fs@[0].1 == JsonValue::Int(i)
        },
        _ => false,
    }
}

/// The payload a model error carries into the log: the variant's name
/// over its fields.
pub open spec fn is_model_error_data(v: JsonValue, me: model::Error) -> bool {
    match me {
        model::Error::EntityNotFound { entity, id } => match v {
            JsonValue::Obj(fs) => {
                &&& fs@.len() == 1
                &&& fs@[0].0@ == "EntityNotFound"@
                &&& fs@[0].1 matches JsonValue::Obj(inner)
                &&& inner@.len() == 2
                &&& inner@[0].0@ == "entity"@
                &&& inner@[0].1 matches JsonValue::Str(s) && s@ == entity@
                &&& inner@[1].0@ == "id"@
                &&& inner@[1].1 == JsonValue::Int(id)
            },
            _ => false,
        },
        model::Error::Store { cause } => match v {
            JsonValue::Obj(fs) => {
                &&& fs@.len() == 1
                &&& fs@[0].0@ == "Store"@
                &&& fs@[0].1 matches JsonValue::Obj(inner)
                &&& inner@.len() == 1
                &&& inner@[0].0@ == "cause"@
                &&& inner@[0].1 matches JsonValue::Str(s) && s@ == cause@
            },
            _ => false,
        },
    }
}

/// The kind-specific payload that goes beside the variant's name in
/// the log line: nothing for the variants that carry nothing.
pub open spec fn is_error_data(v: Option<JsonValue>, e: Error) -> bool {
    match e {
        Error::LoginFail => v is None,
        Error::LoginFailUsernameNotFound => v is None,
        Error::LoginFailUserHasNoPwd { user_id } => v matches Some(d) && is_one_int_field(
            d,
            "user_id"@,
            user_id,
        ),
        Error::LoginFailPwdNotMatching { user_id } => v matches Some(d) && is_one_int_field(
            d,
            "user_id"@,
            user_id,
        ),
        Error::AuthFailCtxNotInRequestExt => v is None,
        Error::AuthFailNoAuthTokenCookie => v is None,
        Error::AuthFailTokenWrongFormat => v is None,
        Error::RpcMethodUnknown(m) => v matches Some(d) && d matches JsonValue::Str(s) && s@ == m@,
        Error::RpcMissingParams { rpc_method } => v matches Some(d) && is_one_str_field(
            d,
            "rpc_method"@,
            rpc_method@,
        ),
        Error::RpcFailJsonParams { rpc_method } => v matches Some(d) && is_one_str_field(
            d,
            "rpc_method"@,
            rpc_method@,
        ),
        Error::Model(me) => v matches Some(d) && is_model_error_data(d, me),
    }
}

/// The kind-specific payload of `e`, as the log line carries it.
fn error_data_json(e: &Error) -> (r: Option<JsonValue>)
    ensures
        is_error_data(r, *e),
{
    match e {
        Error::LoginFail => None,
        Error::LoginFailUsernameNotFound => None,
        Error::LoginFailUserHasNoPwd { user_id } => {
            let mut fs: Vec<(String, JsonValue)> = Vec::new();
            fs.push(("user_id".to_owned(), JsonValue::Int(*user_id)));
            Some(JsonValue::Obj(fs))
        },
        Error::LoginFailPwdNotMatching { user_id } => {
            let mut fs: Vec<(String, JsonValue)> = Vec::new();
            fs.push(("user_id".to_owned(), JsonValue::Int(*user_id)));
            Some(JsonValue::Obj(fs))
        },
        Error::AuthFailCtxNotInRequestExt => None,
        Error::AuthFailNoAuthTokenCookie => None,
        Error::AuthFailTokenWrongFormat => None,
        Error::RpcMethodUnknown(m) => Some(JsonValue::Str(m.clone())),
        Error::RpcMissingParams { rpc_method } => {
            let mut fs: Vec<(String, JsonValue)> = Vec::new();
            fs.push(("rpc_method".to_owned(), JsonValue::Str(rpc_method.clone())));
            Some(JsonValue::Obj(fs))
        },
        Error::RpcFailJsonParams { rpc_method } => {
            let mut fs: Vec<(String, JsonValue)> = Vec::new();
            fs.push(("rpc_method".to_owned(), JsonValue::Str(rpc_method.clone())));
            Some(JsonValue::Obj(fs))
        },
        Error::Model(me) => match me {
            model::Error::EntityNotFound { entity, id } => {
                let mut inner: Vec<(String, JsonValue)> = Vec::new();
                inner.push(("entity".to_owned(), JsonValue::Str((*entity).to_owned())));
                inner.push(("id".to_owned(), JsonValue::Int(*id)));
                let mut fs: Vec<(String, JsonValue)> = Vec::new();
                fs.push((me.as_str().to_owned(), JsonValue::Obj(inner)));
                Some(JsonValue::Obj(fs))
            },
            model::Error::Store { cause } => {
                let mut inner: Vec<(String, JsonValue)> = Vec::new();
                inner.push(("cause".to_owned(), JsonValue::Str(cause.clone())));
                let mut fs: Vec<(String, JsonValue)> = Vec::new();
                fs.push((me.as_str().to_owned(), JsonValue::Obj(inner)));
                Some(JsonValue::Obj(fs))
            },
        },
    }
}

/// Assemble the log record for one request. Every field is pinned to
/// its input: the correlation id and timestamp as given, the principal
/// from the context when one resolved, the coarse client code and the
/// internal variant's name with its payload when the request failed.
pub fn log_request(
    uuid: String,
    req_method: String,
    uri: String,
    ctx: Option<&Ctx>,
    service_error: Option<&Error>,
    client_error: Option<ClientError>,
    timestamp: u64,
) -> (r: RequestLogLine)
    ensures
        r.uuid == uuid,
        r.timestamp == timestamp,
        r.req_method == req_method,
        r.req_path == uri,
        r.user_id == (match ctx {
            Some(c) => Some(c.user_id()),
            None => None::<u64>,
        }),
        (match client_error {
            Some(ce) => r.client_error_type matches Some(s) && s@ == client_error_name(ce),
            None => r.client_error_type is None,
        }),
        (match service_error {
            Some(e) => {
                &&& r.error_type matches Some(s) && s@ == variant_name(*e)
                &&& is_error_data(r.error_data, *e)
            },
            None => r.error_type is None && r.error_data is None,
        }),
{
    let user_id = match ctx {
        Some(c) => Some(c.user_id()),
        None => None,
    };
    let client_error_type = match client_error {
        Some(ce) => Some(ce.as_str().to_owned()),
        None => None,
    };
    let (error_type, error_data) = match service_error {
        Some(e) => (Some(e.as_str().to_owned()), error_data_json(e)),
        None => (None, None),
    };
    RequestLogLine {
        uuid,
        timestamp,
        user_id,
        req_path: uri,
        req_method,
        client_error_type,
        error_type,
        error_data,
    }
}

} // verus!
