//! The task handlers the RPC dispatcher routes to.

use vstd::prelude::*;

use crate::ctx::Ctx;
use crate::error::Error;
use crate::model::task::{task_idx, Task, TaskBmc, TaskForCreate, TaskForUpdate};
use crate::model::{lemma_first_idx_props, lemma_first_idx_scan, ModelManager};
use crate::web::rpc::{ParamsForCreate, ParamsForUpdate, ParamsIded};

verus! {

/// The task row `create_task` adds for `params`.
pub open spec fn created_task(pre: ModelManager, params: ParamsForCreate<TaskForCreate>) -> Task {
    Task { id: pre.next_task_id(), title: params.data.title, done: false }
}

/// Create a task and return the stored row.
pub fn create_task(ctx: &Ctx, mm: &mut ModelManager, params: ParamsForCreate<TaskForCreate>) -> (r:
    Result<Task, Error>)
    requires
        old(mm).wf(),
        old(mm).next_task_id() < i64::MAX,
    ensures
        final(mm).wf(),
        r == Ok::<Task, Error>(created_task(*old(mm), params)),
        final(mm).tasks() == old(mm).tasks().push(created_task(*old(mm), params)),
        final(mm).next_task_id() == old(mm).next_task_id() + 1,
        final(mm).users() == old(mm).users(),
        final(mm).next_user_id() == old(mm).next_user_id(),
{
    let ParamsForCreate { data } = params;
    let ghost pre = *mm;
    let id = match TaskBmc::create(ctx, mm, data) {
        Ok(id) => id,
        Err(e) => return Err(Error::Model(e)),
    };
    proof {
        let ts = mm.tasks();
        assert forall|k: int| 0 <= k < ts.len() - 1 implies ts[k].id != id by {
            assert(ts[k] == pre.tasks()[k]);
        }
        let q = |t: Task| t.id == id;
        assert forall|k: int| 0 <= k < ts.len() - 1 implies !q(ts[k]) by {}
        assert(q(ts[ts.len() - 1]));
        lemma_first_idx_scan(ts, q, ts.len() - 1);
    }
    match TaskBmc::get(ctx, mm, id) {
        Ok(task) => Ok(task),
        Err(e) => Err(Error::Model(e)),
    }
}

/// List every task row.
pub fn list_tasks(ctx: &Ctx, mm: &ModelManager) -> (r: Result<Vec<Task>, Error>)
    ensures
        r matches Ok(ts) && ts@ == mm.tasks(),
{
    match TaskBmc::list(ctx, mm) {
        Ok(ts) => Ok(ts),
        Err(e) => Err(Error::Model(e)),
    }
}

/// The task row `update_task` leaves for `params`, when its id is
/// present.
pub open spec fn updated_task(pre: ModelManager, params: ParamsForUpdate<TaskForUpdate>) -> Task {
    let ti = task_idx(pre.tasks(), params.id);
    Task {
        id: params.id,
        title: match params.data.title {
            Some(t) => t,
            None => pre.tasks()[ti].title,
        },
        done: match params.data.done {
            Some(d) => d,
            None => pre.tasks()[ti].done,
        },
    }
}

/// Update a task and return the stored row as it stands afterwards;
/// fails with the model's `EntityNotFound` when the id is not present.
pub fn update_task(ctx: &Ctx, mm: &mut ModelManager, params: ParamsForUpdate<TaskForUpdate>) -> (r:
    Result<Task, Error>)
    requires
        old(mm).wf(),
    ensures
        final(mm).wf(),
        final(mm).next_task_id() == old(mm).next_task_id(),
        final(mm).users() == old(mm).users(),
        final(mm).next_user_id() == old(mm).next_user_id(),
        ({
            let ti = task_idx(old(mm).tasks(), params.id);
            if ti >= 0 {
                &&& r == Ok::<Task, Error>(updated_task(*old(mm), params))
                &&& final(mm).tasks() == old(mm).tasks().update(ti, updated_task(*old(mm), params))
            } else {
                &&& r matches Err(e) && e matches Error::Model(me) && me
                    matches crate::model::Error::EntityNotFound { entity, id } && entity@
                    == "task"@ && id == params.id
                &&& final(mm).tasks() == old(mm).tasks()
            }
        }),
{
    let ParamsForUpdate { id, data } = params;
    let ghost pre = *mm;
    match TaskBmc::update(ctx, mm, id, data) {
        Ok(_) => {},
        Err(e) => return Err(Error::Model(e)),
    };
    proof {
        let ts = mm.tasks();
        let ti = task_idx(pre.tasks(), id);
        let q = |t: Task| t.id == id;
        lemma_first_idx_props(pre.tasks(), q);
        assert forall|k: int| 0 <= k < ti implies !q(ts[k]) by {
            assert(ts[k] == pre.tasks()[k]);
        }
        assert(q(ts[ti]));
        lemma_first_idx_scan(ts, q, ti);
        assert(ts =~= pre.tasks().update(ti, updated_task(pre, params)));
    }
    match TaskBmc::get(ctx, mm, id) {
        Ok(task) => Ok(task),
        Err(e) => Err(Error::Model(e)),
    }
}

/// Remove a task and return the removed row; fails with the model's
/// `EntityNotFound` when the id is not present.
pub fn delete_task(ctx: &Ctx, mm: &mut ModelManager, params: ParamsIded) -> (r: Result<
    Task,
    Error,
>)
    requires
        old(mm).wf(),
    ensures
        final(mm).wf(),
        final(mm).next_task_id() == old(mm).next_task_id(),
        final(mm).users() == old(mm).users(),
        final(mm).next_user_id() == old(mm).next_user_id(),
        ({
            let ti = task_idx(old(mm).tasks(), params.id);
            if ti >= 0 {
                &&& r == Ok::<Task, Error>(old(mm).tasks()[ti])
                &&& final(mm).tasks() == old(mm).tasks().remove(ti)
            } else {
                &&& r matches Err(e) && e matches Error::Model(me) && me
                    matches crate::model::Error::EntityNotFound { entity, id } && entity@
                    == "task"@ && id == params.id
                &&& final(mm).tasks() == old(mm).tasks()
            }
        }),
{
    let ParamsIded { id } = params;
    let task = match TaskBmc::get(ctx, mm, id) {
        Ok(task) => task,
        Err(e) => return Err(Error::Model(e)),
    };
    match TaskBmc::delete(ctx, mm, id) {
        Ok(_) => Ok(task),
        Err(e) => Err(Error::Model(e)),
    }
}

} // verus!
