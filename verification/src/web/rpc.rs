//! The RPC dispatcher: one endpoint, many handlers, routed by method
//! name.
//!
//! A call carries a method name, an optional correlation id and
//! optional JSON parameters. The dispatcher looks the name up —
//! case-sensitively, with no namespacing — decodes the parameters into
//! the handler's expected shape, invokes the handler, and wraps its
//! result in an envelope that echoes the correlation id verbatim.
//! Failures are typed, never formatted here: an unknown name, missing
//! parameters, parameters that do not decode, and the handler's own
//! errors each surface as their [`Error`] variant for the response
//! mapper to translate.

pub mod task_rpc;

use vstd::prelude::*;

use crate::ctx::Ctx;
use crate::error::Error;
use crate::json::{obj_get, spec_obj_get, JsonValue};
use crate::model::task::{task_idx, Task, TaskForCreate, TaskForUpdate};
use crate::model::ModelManager;
use crate::strutil::str_eq;
use task_rpc::{create_task, created_task, delete_task, list_tasks, update_task, updated_task};

verus! {

/// One RPC call as it arrives on the wire: optional correlation id,
/// method name, optional parameters.
pub struct RpcRequest {
    pub id: Option<JsonValue>,
    pub method: String,
    pub params: Option<JsonValue>,
}

/// The id and method of a call, kept beside the response for logging.
pub struct RpcInfo {
    pub id: Option<JsonValue>,
    pub method: String,
}

/// Parameters that carry the data for a create.
pub struct ParamsForCreate<D> {
    pub data: D,
}

/// Parameters that carry an id and the data for an update.
pub struct ParamsForUpdate<D> {
    pub id: i64,
    pub data: D,
}

/// Parameters that carry an id alone.
pub struct ParamsIded {
    pub id: i64,
}

/// How a `TaskForCreate` reads from JSON: an object whose `title`
/// field holds a string.
pub open spec fn dec_task_for_create(v: JsonValue) -> Option<TaskForCreate> {
    match v {
        JsonValue::Obj(fs) => match spec_obj_get(fs@, "title"@) {
            Some(JsonValue::Str(t)) => Some(TaskForCreate { title: t }),
            _ => None,
        },
        _ => None,
    }
}

/// How an optional string field reads: absent or null is `None`, a
/// string is `Some`, anything else refuses to decode.
pub open spec fn dec_opt_str(o: Option<JsonValue>) -> Option<Option<String>> {
    match o {
        None => Some(None),
        Some(JsonValue::Null) => Some(None),
        Some(JsonValue::Str(s)) => Some(Some(s)),
        Some(_) => None,
    }
}

/// How an optional boolean field reads: absent or null is `None`, a
/// boolean is `Some`, anything else refuses to decode.
pub open spec fn dec_opt_bool(o: Option<JsonValue>) -> Option<Option<bool>> {
    match o {
        None => Some(None),
        Some(JsonValue::Null) => Some(None),
        Some(JsonValue::Bool(b)) => Some(Some(b)),
        Some(_) => None,
    }
}

/// How a `TaskForUpdate` reads from JSON: an object whose `title` and
/// `done` fields, where present and non-null, hold a string and a
/// boolean.
pub open spec fn dec_task_for_update(v: JsonValue) -> Option<TaskForUpdate> {
    match v {
        JsonValue::Obj(fs) => match (
            dec_opt_str(spec_obj_get(fs@, "title"@)),
            dec_opt_bool(spec_obj_get(fs@, "done"@)),
        ) {
            (Some(t), Some(d)) => Some(TaskForUpdate { title: t, done: d }),
            _ => None,
        },
        _ => None,
    }
}

/// How create-task parameters read: an object whose `data` field
/// holds a `TaskForCreate`.
pub open spec fn dec_params_create(v: JsonValue) -> Option<ParamsForCreate<TaskForCreate>> {
    match v {
        JsonValue::Obj(fs) => match spec_obj_get(fs@, "data"@) {
            Some(d) => match dec_task_for_create(d) {
                Some(tc) => Some(ParamsForCreate { data: tc }),
                None => None,
            },
            None => None,
        },
        _ => None,
    }
}

/// How update-task parameters read: an object whose `id` field holds
/// an integer and whose `data` field holds a `TaskForUpdate`.
pub open spec fn dec_params_update(v: JsonValue) -> Option<ParamsForUpdate<TaskForUpdate>> {
    match v {
        JsonValue::Obj(fs) => match (spec_obj_get(fs@, "id"@), spec_obj_get(fs@, "data"@)) {
            (Some(JsonValue::Int(i)), Some(d)) => match dec_task_for_update(d) {
                Some(tu) => Some(ParamsForUpdate { id: i, data: tu }),
                None => None,
            },
            _ => None,
        },
        _ => None,
    }
}

/// How id-only parameters read: an object whose `id` field holds an
/// integer.
pub open spec fn dec_params_ided(v: JsonValue) -> Option<ParamsIded> {
    match v {
        JsonValue::Obj(fs) => match spec_obj_get(fs@, "id"@) {
            Some(JsonValue::Int(i)) => Some(ParamsIded { id: i }),
            _ => None,
        },
        _ => None,
    }
}

fn decode_task_for_create(v: &JsonValue) -> (r: Option<TaskForCreate>)
    ensures
        r == dec_task_for_create(*v),
{
    match v {
        JsonValue::Obj(fs) => match obj_get(fs, "title") {
            Some(JsonValue::Str(t)) => Some(TaskForCreate { title: t.clone() }),
            _ => None,
        },
        _ => None,
    }
}

fn decode_task_for_update(v: &JsonValue) -> (r: Option<TaskForUpdate>)
    ensures
        r == dec_task_for_update(*v),
{
    match v {
        JsonValue::Obj(fs) => {
            let title = match obj_get(fs, "title") {
                None => None,
                Some(JsonValue::Null) => None,
                Some(JsonValue::Str(s)) => Some(s.clone()),
                Some(_) => return None,
            };
            let done = match obj_get(fs, "done") {
                None => None,
                Some(JsonValue::Null) => None,
                Some(JsonValue::Bool(b)) => Some(*b),
                Some(_) => return None,
            };
            Some(TaskForUpdate { title, done })
        },
        _ => None,
    }
}

fn decode_params_create(v: &JsonValue) -> (r: Option<ParamsForCreate<TaskForCreate>>)
    ensures
        r == dec_params_create(*v),
{
    match v {
        JsonValue::Obj(fs) => match obj_get(fs, "data") {
            Some(d) => match decode_task_for_create(d) {
                Some(tc) => Some(ParamsForCreate { data: tc }),
                None => None,
            },
            None => None,
        },
        _ => None,
    }
}

fn decode_params_update(v: &JsonValue) -> (r: Option<ParamsForUpdate<TaskForUpdate>>)
    ensures
        r == dec_params_update(*v),
{
    match v {
        JsonValue::Obj(fs) => {
            let id = match obj_get(fs, "id") {
                Some(JsonValue::Int(i)) => *i,
                _ => return None,
            };
            match obj_get(fs, "data") {
                Some(d) => match decode_task_for_update(d) {
                    Some(tu) => Some(ParamsForUpdate { id, data: tu }),
                    None => None,
                },
                None => None,
            }
        },
        _ => None,
    }
}

fn decode_params_ided(v: &JsonValue) -> (r: Option<ParamsIded>)
    ensures
        r == dec_params_ided(*v),
{
    match v {
        JsonValue::Obj(fs) => match obj_get(fs, "id") {
            Some(JsonValue::Int(i)) => Some(ParamsIded { id: *i }),
            _ => None,
        },
        _ => None,
    }
}

/// Does `v` render the task row `t`?
pub open spec fn is_task_json(v: JsonValue, t: Task) -> bool {
    &&& v matches JsonValue::Obj(fs)
    &&& fs@.len() == 3
    &&& fs@[0].0@ == "id"@ && fs@[0].1 == JsonValue::Int(t.id)
    &&& fs@[1].0@ == "title"@ && fs@[1].1 == JsonValue::Str(t.title)
    &&& fs@[2].0@ == "done"@ && fs@[2].1 == JsonValue::Bool(t.done)
}

/// Does `v` render the task rows `ts`, in order?
pub open spec fn is_tasks_json(v: JsonValue, ts: Seq<Task>) -> bool {
    &&& v matches JsonValue::Arr(items)
    &&& items@.len() == ts.len()
    &&& forall|i: int| 0 <= i < ts.len() ==> is_task_json(#[trigger] items@[i], ts[i])
}

/// Does `v` wrap `result` in the response envelope, echoing `id`
/// verbatim (`null` when the call carried none)?
pub open spec fn is_envelope(v: JsonValue, id: Option<JsonValue>, result: JsonValue) -> bool {
    &&& v matches JsonValue::Obj(fs)
    &&& fs@.len() == 2
    &&& fs@[0].0@ == "id"@ && fs@[0].1 == (match id {
        Some(x) => x,
        None => JsonValue::Null,
    })
    &&& fs@[1].0@ == "result"@ && fs@[1].1 == result
}

fn task_to_json(t: Task) -> (r: JsonValue)
    ensures
        is_task_json(r, t),
{
    let mut fs: Vec<(String, JsonValue)> = Vec::new();
    fs.push(("id".to_owned(), JsonValue::Int(t.id)));
    fs.push(("title".to_owned(), JsonValue::Str(t.title)));
    fs.push(("done".to_owned(), JsonValue::Bool(t.done)));
    JsonValue::Obj(fs)
}

fn tasks_to_json(ts: Vec<Task>) -> (r: JsonValue)
    ensures
        is_tasks_json(r, ts@),
{
    let n = ts.len();
    let mut items: Vec<JsonValue> = Vec::new();
    let mut i: usize = 0;
    while i < n
        invariant
            i <= n,
            n == ts@.len(),
            items@.len() == i,
            forall|k: int| 0 <= k < i ==> is_task_json(#[trigger] items@[k], ts@[k]),
        decreases n - i,
    {
        items.push(task_to_json(ts[i].clone()));
        i = i + 1;
    }
    JsonValue::Arr(items)
}

fn envelope(id: Option<JsonValue>, result: JsonValue) -> (r: JsonValue)
    ensures
        is_envelope(r, id, result),
{
    let id_value = match id {
        Some(v) => v,
        None => JsonValue::Null,
    };
    let mut fs: Vec<(String, JsonValue)> = Vec::new();
    fs.push(("id".to_owned(), id_value));
    fs.push(("result".to_owned(), result));
    JsonValue::Obj(fs)
}

/// Everything the dispatcher owes for one call: which handler runs for
/// the method name, which failure comes when it cannot run, how the
/// store changes, and what the envelope holds.
pub open spec fn dispatch_post(
    pre: ModelManager,
    post: ModelManager,
    req: RpcRequest,
    r: Result<JsonValue, Error>,
) -> bool {
    let m = req.method@;
    if m == "create_task"@ {
        match req.params {
            None => r matches Err(e) && is_missing_params(e, m) && unchanged(pre, post),
            Some(p) => match dec_params_create(p) {
                None => r matches Err(e) && is_fail_json_params(e, m) && unchanged(pre, post),
                Some(pc) => {
                    &&& post.tasks() == pre.tasks().push(created_task(pre, pc))
                    &&& post.next_task_id() == pre.next_task_id() + 1
                    &&& r matches Ok(env) && exists|res: JsonValue|
                        is_envelope(env, req.id, res) && #[trigger] is_task_json(
                            res,
                            created_task(pre, pc),
                        )
                },
            },
        }
    } else if m == "list_task"@ {
        &&& unchanged(pre, post)
        &&& r matches Ok(env) && exists|res: JsonValue|
            is_envelope(env, req.id, res) && #[trigger] is_tasks_json(res, pre.tasks())
    } else if m == "update_task"@ {
        match req.params {
            None => r matches Err(e) && is_missing_params(e, m) && unchanged(pre, post),
            Some(p) => match dec_params_update(p) {
                None => r matches Err(e) && is_fail_json_params(e, m) && unchanged(pre, post),
                Some(pu) => {
                    let ti = task_idx(pre.tasks(), pu.id);
                    if ti >= 0 {
                        &&& post.tasks() == pre.tasks().update(ti, updated_task(pre, pu))
                        &&& post.next_task_id() == pre.next_task_id()
                        &&& r matches Ok(env) && exists|res: JsonValue|
                            is_envelope(env, req.id, res) && #[trigger] is_task_json(
                                res,
                                updated_task(pre, pu),
                            )
                    } else {
                        r matches Err(e) && is_task_not_found(e, pu.id) && unchanged(pre, post)
                    }
                },
            },
        }
    } else if m == "delete_task"@ {
        match req.params {
            None => r matches Err(e) && is_missing_params(e, m) && unchanged(pre, post),
            Some(p) => match dec_params_ided(p) {
                None => r matches Err(e) && is_fail_json_params(e, m) && unchanged(pre, post),
                Some(pi) => {
                    let ti = task_idx(pre.tasks(), pi.id);
                    if ti >= 0 {
                        &&& post.tasks() == pre.tasks().remove(ti)
                        &&& post.next_task_id() == pre.next_task_id()
                        &&& r matches Ok(env) && exists|res: JsonValue|
                            is_envelope(env, req.id, res) && #[trigger] is_task_json(
                                res,
                                pre.tasks()[ti],
                            )
                    } else {
                        r matches Err(e) && is_task_not_found(e, pi.id) && unchanged(pre, post)
                    }
                },
            },
        }
    } else {
        r matches Err(e) && e matches Error::RpcMethodUnknown(um) && um@ == m && unchanged(pre, post)
    }
}

/// The store reads the same: same rows, same next ids.
pub open spec fn unchanged(pre: ModelManager, post: ModelManager) -> bool {
    &&& post.tasks() == pre.tasks()
    &&& post.next_task_id() == pre.next_task_id()
    &&& post.users() == pre.users()
    &&& post.next_user_id() == pre.next_user_id()
}

/// Is `e` the missing-parameters failure for method `m`?
pub open spec fn is_missing_params(e: Error, m: Seq<char>) -> bool {
    e matches Error::RpcMissingParams { rpc_method } && rpc_method@ == m
}

/// Is `e` the parameters-do-not-decode failure for method `m`?
pub open spec fn is_fail_json_params(e: Error, m: Seq<char>) -> bool {
    e matches Error::RpcFailJsonParams { rpc_method } && rpc_method@ == m
}

/// Is `e` the model's report that no task row holds `id`?
pub open spec fn is_task_not_found(e: Error, id: i64) -> bool {
    e matches Error::Model(me) && me matches crate::model::Error::EntityNotFound {
        entity,
        id: eid,
    } && entity@ == "task"@ && eid == id
}

/// Dispatch refusals, as laws over the dispatcher's contract: a
/// method name that is not registered always fails with
/// `RpcMethodUnknown`, whatever its parameters; and a registered
/// method that requires parameters, called without any (the `params`
/// field missing or null on the wire), always fails with
/// `RpcMissingParams`. Either way the store is untouched.
pub proof fn lemma_dispatch_refusals(
    pre: ModelManager,
    post: ModelManager,
    req: RpcRequest,
    r: Result<JsonValue, Error>,
)
    requires
        dispatch_post(pre, post, req, r),
    ensures
        req.method@ != "create_task"@ && req.method@ != "list_task"@ && req.method@
            != "update_task"@ && req.method@ != "delete_task"@ ==> (r matches Err(e) && e matches
            Error::RpcMethodUnknown(m) && m@ == req.method@ && unchanged(pre, post)),
        (req.method@ == "create_task"@ || req.method@ == "update_task"@ || req.method@
            == "delete_task"@) && req.params is None ==> (r matches Err(e) && is_missing_params(
            e,
            req.method@,
        ) && unchanged(pre, post)),
{
    reveal_strlit("create_task");
    reveal_strlit("list_task");
    reveal_strlit("update_task");
    reveal_strlit("delete_task");
    assert("create_task"@[0] == 'c' && "list_task"@[0] == 'l' && "update_task"@[0] == 'u'
        && "delete_task"@[0] == 'd');
}

/// Route one RPC call: look the method up, decode its parameters,
/// invoke the handler, and wrap the result in the envelope. The store
/// changes exactly as the routed handler says; every failure leaves it
/// untouched.
pub fn _rpc_handler(ctx: &Ctx, mm: &mut ModelManager, rpc_req: RpcRequest) -> (r: Result<
    JsonValue,
    Error,
>)
    requires
        old(mm).wf(),
        old(mm).next_task_id() < i64::MAX,
    ensures
        final(mm).wf(),
        final(mm).users() == old(mm).users(),
        final(mm).next_user_id() == old(mm).next_user_id(),
        dispatch_post(*old(mm), *final(mm), rpc_req, r),
{
    let RpcRequest { id: rpc_id, method: rpc_method, params: rpc_params } = rpc_req;

    let result_json: JsonValue;
    if str_eq(rpc_method.as_str(), "create_task") {
        let params = match rpc_params {
            Some(p) => p,
            None => return Err(Error::RpcMissingParams { rpc_method }),
        };
        let pc = match decode_params_create(&params) {
            Some(pc) => pc,
            None => return Err(Error::RpcFailJsonParams { rpc_method }),
        };
        let task = match create_task(ctx, mm, pc) {
            Ok(t) => t,
            Err(e) => return Err(e),
        };
        result_json = task_to_json(task);
    } else if str_eq(rpc_method.as_str(), "list_task") {
        let tasks = match list_tasks(ctx, mm) {
            Ok(ts) => ts,
            Err(e) => return Err(e),
        };
        result_json = tasks_to_json(tasks);
    } else if str_eq(rpc_method.as_str(), "update_task") {
        let params = match rpc_params {
            Some(p) => p,
            None => return Err(Error::RpcMissingParams { rpc_method }),
        };
        let pu = match decode_params_update(&params) {
            Some(pu) => pu,
            None => return Err(Error::RpcFailJsonParams { rpc_method }),
        };
        let task = match update_task(ctx, mm, pu) {
            Ok(t) => t,
            Err(e) => return Err(e),
        };
        result_json = task_to_json(task);
    } else if str_eq(rpc_method.as_str(), "delete_task") {
        let params = match rpc_params {
            Some(p) => p,
            None => return Err(Error::RpcMissingParams { rpc_method }),
        };
        let pi = match decode_params_ided(&params) {
            Some(pi) => pi,
            None => return Err(Error::RpcFailJsonParams { rpc_method }),
        };
        let task = match delete_task(ctx, mm, pi) {
            Ok(t) => t,
            Err(e) => return Err(e),
        };
        result_json = task_to_json(task);
    } else {
        return Err(Error::RpcMethodUnknown(rpc_method));
    }

    Ok(envelope(rpc_id, result_json))
}

} // verus!
