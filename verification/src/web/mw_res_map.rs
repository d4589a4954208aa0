//! The response mapper: the one place an internal error becomes a
//! client-visible body.
//!
//! It runs after every handler. When the response carries an attached
//! [`Error`], it draws a fresh correlation id, classifies the error,
//! and replaces the body with the uniform client error envelope; with
//! or without an error it assembles the request's log record, under
//! the same correlation id the client sees.

use vstd::prelude::*;

use crate::ctx::Ctx;
use crate::error::{classify, client_error_name, variant_name, Error};
use crate::json::JsonValue;
use crate::log::{is_error_data, log_request, RequestLogLine};

verus! {

/// Is `c` a character the hyphenated form of a UUID may hold: a
/// lowercase hexadecimal digit or a hyphen?
pub open spec fn is_uuid_char(c: char) -> bool {
    ||| c == '-'
    ||| 48 <= c as u32 <= 57
    ||| 97 <= c as u32 <= 102
}

/// Relies on uuid::Uuid::new_v4 and its display form: a fresh random
/// UUID, rendered hyphenated — 36 characters, lowercase hexadecimal
/// digits and hyphens. Nothing is promised about which UUID comes.
#[verifier::external_body]
fn new_request_uuid() -> (r: String)
    ensures
        r@.len() == 36,
        forall|i: int| 0 <= i < 36 ==> is_uuid_char(#[trigger] r@[i]),
{
    uuid::Uuid::new_v4().to_string()
}

/// Is `v` the client error envelope `{"error": {"type": <code>,
/// "req_uuid": <uuid>}}`?
pub open spec fn is_client_error_body(v: JsonValue, code: Seq<char>, uuid: Seq<char>) -> bool {
    match v {
        JsonValue::Obj(fs) => {
            &&& fs@.len() == 1
            &&& fs@[0].0@ == "error"@
            &&& fs@[0].1 matches JsonValue::Obj(inner)
            &&& inner@.len() == 2
            &&& inner@[0].0@ == "type"@
            &&& inner@[0].1 matches JsonValue::Str(t) && t@ == code
            &&& inner@[1].0@ == "req_uuid"@
            &&& inner@[1].1 matches JsonValue::Str(u) && u@ == uuid
        },
        _ => false,
    }
}

/// What the mapper produces for one request: the replacement response
/// when an error was attached, and the request's log record.
pub struct MappedResponse {
    pub error_response: Option<(u16, JsonValue)>,
    pub log_line: RequestLogLine,
}

/// Map one outgoing response. When `service_error` is attached, the
/// result replaces the response with the classified status and the
/// uniform client error body; otherwise the original response stands.
/// Either way the log record is assembled, and the correlation id in
/// the body is the one in the log line.
pub fn main_response_mapper(
    ctx: Option<&Ctx>,
    uri: String,
    req_method: String,
    service_error: Option<&Error>,
    timestamp: u64,
) -> (r: MappedResponse)
    ensures
        r.log_line.uuid@.len() == 36,
        r.log_line.timestamp == timestamp,
        r.log_line.req_path == uri,
        r.log_line.req_method == req_method,
        r.log_line.user_id == (match ctx {
            Some(c) => Some(c.user_id()),
            None => None::<u64>,
        }),
        (match service_error {
            Some(e) => {
                &&& r.error_response matches Some((status, body)) && status == classify(*e).0
                    && is_client_error_body(
                    body,
                    client_error_name(classify(*e).1),
                    r.log_line.uuid@,
                )
                &&& r.log_line.client_error_type matches Some(s) && s@ == client_error_name(
                    classify(*e).1,
                )
                &&& r.log_line.error_type matches Some(s) && s@ == variant_name(*e)
                &&& is_error_data(r.log_line.error_data, *e)
            },
            None => {
                &&& r.error_response is None
                &&& r.log_line.client_error_type is None
                &&& r.log_line.error_type is None
                &&& r.log_line.error_data is None
            },
        }),
{
    let uuid = new_request_uuid();

    let (error_response, client_error) = match service_error {
        Some(e) => {
            let (status, client_err) = e.client_status_and_error();
            let mut inner: Vec<(String, JsonValue)> = Vec::new();
            inner.push(("type".to_owned(), JsonValue::Str(client_err.as_str().to_owned())));
            inner.push(("req_uuid".to_owned(), JsonValue::Str(uuid.clone())));
            let mut fs: Vec<(String, JsonValue)> = Vec::new();
            fs.push(("error".to_owned(), JsonValue::Obj(inner)));
            (Some((status, JsonValue::Obj(fs))), Some(client_err))
        },
        None => (None, None),
    };

    let log_line = log_request(uuid, req_method, uri, ctx, service_error, client_error, timestamp);

    MappedResponse { error_response, log_line }
}

} // verus!
