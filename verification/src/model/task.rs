//! Task entity and its controller.

use vstd::prelude::*;

use crate::ctx::Ctx;
use crate::model::error::Error;
use crate::model::{first_idx, lemma_first_idx_scan, ModelManager};

verus! {

/// One task row.
pub struct Task {
    pub id: i64,
    pub title: String,
    pub done: bool,
}

impl Clone for Task {
    fn clone(&self) -> (r: Self)
        ensures
            r == *self,
    {
        Task { id: self.id, title: self.title.clone(), done: self.done }
    }
}

/// What a caller provides to create a task.
pub struct TaskForCreate {
    pub title: String,
}

/// What a caller may change on a task; a field left `None` keeps its
/// value.
pub struct TaskForUpdate {
    pub title: Option<String>,
    pub done: Option<bool>,
}

/// Index of the task row holding `id`, `-1` when there is none.
pub open spec fn task_idx(tasks: Seq<Task>, id: i64) -> int {
    first_idx(tasks, |t: Task| t.id == id)
}

/// Controller for the task entity.
pub struct TaskBmc;

impl TaskBmc {
    /// Create a task with the next free id; the new row starts not
    /// done. Returns the id.
    pub fn create(_ctx: &Ctx, mm: &mut ModelManager, data: TaskForCreate) -> (r: Result<
        i64,
        Error,
    >)
        requires
            old(mm).wf(),
            old(mm).next_task_id() < i64::MAX,
        ensures
            final(mm).wf(),
            r == Ok::<i64, Error>(old(mm).next_task_id()),
            final(mm).tasks() == old(mm).tasks().push(
                (Task { id: old(mm).next_task_id(), title: data.title, done: false }),
            ),
            final(mm).next_task_id() == old(mm).next_task_id() + 1,
            final(mm).users() == old(mm).users(),
            final(mm).next_user_id() == old(mm).next_user_id(),
    {
        let id = mm.db.next_task_id;
        mm.db.tasks.push(Task { id, title: data.title, done: false });
        mm.db.next_task_id = id + 1;
        proof {
            let ts = mm.db.tasks@;
            let ots = old(mm).db.tasks@;
            assert forall|a: int| 0 <= a < ts.len() implies 1 <= #[trigger] ts[a].id
                < mm.db.next_task_id by {
                if a < ots.len() {
                    assert(ts[a] == ots[a]);
                } else {
                    assert(ts[a].id == old(mm).db.next_task_id);
                }
            }
            assert forall|a: int, b: int| 0 <= a < b < ts.len() implies #[trigger] ts[a].id
                != #[trigger] ts[b].id by {
                assert(ts[a] == ots[a]);
                if b < ots.len() {
                    assert(ts[b] == ots[b]);
                } else {
                    assert(ts[b].id == old(mm).db.next_task_id);
                }
            }
        }
        Ok(id)
    }

    /// Fetch the task holding `id`; fails with `EntityNotFound` when
    /// no row holds it.
    pub fn get(_ctx: &Ctx, mm: &ModelManager, id: i64) -> (r: Result<Task, Error>)
        ensures
            ({
                let ti = task_idx(mm.tasks(), id);
                if ti >= 0 {
                    r matches Ok(t) && t == mm.tasks()[ti]
                } else {
                    r matches Err(e) && e matches Error::EntityNotFound { entity, id: eid }
                        && entity@ == "task"@ && eid == id
                }
            }),
    {
        let n = mm.db.tasks.len();
        let mut i: usize = 0;
        while i < n
            invariant
                i <= n,
                n == mm.tasks().len(),
                forall|k: int| 0 <= k < i ==> mm.tasks()[k].id != id,
            decreases n - i,
        {
            if mm.db.tasks[i].id == id {
                proof {
                    let q = |t: Task| t.id == id;
                    assert forall|k: int| 0 <= k < i implies !q(mm.tasks()[k]) by {}
                    lemma_first_idx_scan(mm.tasks(), q, i as int);
                }
                return Ok(mm.db.tasks[i].clone());
            }
            i = i + 1;
        }
        proof {
            let q = |t: Task| t.id == id;
            assert forall|k: int| 0 <= k < n implies !q(mm.tasks()[k]) by {}
            lemma_first_idx_scan(mm.tasks(), q, n as int);
        }
        Err(Error::EntityNotFound { entity: "task", id })
    }

    /// All task rows, in insertion order.
    pub fn list(_ctx: &Ctx, mm: &ModelManager) -> (r: Result<Vec<Task>, Error>)
        ensures
            r matches Ok(ts) && ts@ == mm.tasks(),
    {
        let n = mm.db.tasks.len();
        let mut out: Vec<Task> = Vec::new();
        let mut i: usize = 0;
        while i < n
            invariant
                i <= n,
                n == mm.tasks().len(),
                out@.len() == i,
                forall|k: int| 0 <= k < i ==> out@[k] == mm.tasks()[k],
            decreases n - i,
        {
            out.push(mm.db.tasks[i].clone());
            i = i + 1;
        }
        proof {
            assert(out@ =~= mm.tasks());
        }
        Ok(out)
    }

    /// Change the task holding `id` as `data` says; fails with
    /// `EntityNotFound` when no row holds it.
    pub fn update(_ctx: &Ctx, mm: &mut ModelManager, id: i64, data: TaskForUpdate) -> (r: Result<
        (),
        Error,
    >)
        requires
            old(mm).wf(),
        ensures
            final(mm).wf(),
            final(mm).next_task_id() == old(mm).next_task_id(),
            final(mm).users() == old(mm).users(),
            final(mm).next_user_id() == old(mm).next_user_id(),
            ({
                let ti = task_idx(old(mm).tasks(), id);
                if ti >= 0 {
                    &&& r is Ok
                    &&& final(mm).tasks().len() == old(mm).tasks().len()
                    &&& forall|j: int|
                        0 <= j < old(mm).tasks().len() && j != ti ==> final(mm).tasks()[j] == old(
                            mm,
                        ).tasks()[j]
                    &&& final(mm).tasks()[ti].id == id
                    &&& final(mm).tasks()[ti].title == (match data.title {
                        Some(t) => t,
                        None => old(mm).tasks()[ti].title,
                    })
                    &&& final(mm).tasks()[ti].done == (match data.done {
                        Some(d) => d,
                        None => old(mm).tasks()[ti].done,
                    })
                } else {
                    &&& r matches Err(e) && e matches Error::EntityNotFound { entity, id: eid }
                        && entity@ == "task"@ && eid == id
                    &&& final(mm).tasks() == old(mm).tasks()
                }
            }),
    {
        let n = mm.db.tasks.len();
        let mut i: usize = 0;
        while i < n
            invariant
                i <= n,
                *mm == *old(mm),
                old(mm).wf(),
                n == mm.tasks().len(),
                forall|k: int| 0 <= k < i ==> mm.tasks()[k].id != id,
            decreases n - i,
        {
            if mm.db.tasks[i].id == id {
                proof {
                    let q = |t: Task| t.id == id;
                    assert forall|k: int| 0 <= k < i implies !q(mm.tasks()[k]) by {}
                    lemma_first_idx_scan(mm.tasks(), q, i as int);
                    assert(task_idx(old(mm).tasks(), id) == i);
                }
                let title = match data.title {
                    Some(t) => t,
                    None => mm.db.tasks[i].title.clone(),
                };
                let done = match data.done {
                    Some(d) => d,
                    None => mm.db.tasks[i].done,
                };
                mm.db.tasks.set(i, Task { id, title, done });
                proof {
                    let ts = mm.db.tasks@;
                    let ots = old(mm).db.tasks@;
                    assert forall|j: int| 0 <= j < ots.len() && j != i implies #[trigger] ts[j]
                        == ots[j] by {}
                    assert(ts[i as int].id == ots[i as int].id);
                    assert forall|a: int| 0 <= a < ts.len() implies 1 <= #[trigger] ts[a].id
                        < mm.db.next_task_id by {
                        assert(ts[a].id == ots[a].id);
                    }
                    assert forall|a: int, b: int| 0 <= a < b < ts.len() implies #[trigger] ts[a].id
                        != #[trigger] ts[b].id by {
                        assert(ts[a].id == ots[a].id);
                        assert(ts[b].id == ots[b].id);
                    }
                }
                return Ok(());
            }
            i = i + 1;
        }
        proof {
            let q = |t: Task| t.id == id;
            assert forall|k: int| 0 <= k < n implies !q(mm.tasks()[k]) by {}
            lemma_first_idx_scan(mm.tasks(), q, n as int);
        }
        Err(Error::EntityNotFound { entity: "task", id })
    }

    /// Remove the task holding `id`; fails with `EntityNotFound` when
    /// no row holds it.
    pub fn delete(_ctx: &Ctx, mm: &mut ModelManager, id: i64) -> (r: Result<(), Error>)
        requires
            old(mm).wf(),
        ensures
            final(mm).wf(),
            final(mm).next_task_id() == old(mm).next_task_id(),
            final(mm).users() == old(mm).users(),
            final(mm).next_user_id() == old(mm).next_user_id(),
            ({
                let ti = task_idx(old(mm).tasks(), id);
                if ti >= 0 {
                    &&& r is Ok
                    &&& final(mm).tasks() == old(mm).tasks().remove(ti)
                } else {
                    &&& r matches Err(e) && e matches Error::EntityNotFound { entity, id: eid }
                        && entity@ == "task"@ && eid == id
                    &&& final(mm).tasks() == old(mm).tasks()
                }
            }),
    {
        let n = mm.db.tasks.len();
        let mut i: usize = 0;
        while i < n
            invariant
                i <= n,
                *mm == *old(mm),
                old(mm).wf(),
                n == mm.tasks().len(),
                forall|k: int| 0 <= k < i ==> mm.tasks()[k].id != id,
            decreases n - i,
        {
            if mm.db.tasks[i].id == id {
                proof {
                    let q = |t: Task| t.id == id;
                    assert forall|k: int| 0 <= k < i implies !q(mm.tasks()[k]) by {}
                    lemma_first_idx_scan(mm.tasks(), q, i as int);
                    assert(task_idx(old(mm).tasks(), id) == i);
                }
                mm.db.tasks.remove(i);
                proof {
                    let ts = mm.db.tasks@;
                    let ots = old(mm).db.tasks@;
                    ots.remove_ensures(i as int);
                    assert(ts =~= ots.remove(i as int));
                    assert forall|a: int| 0 <= a < ts.len() implies 1 <= #[trigger] ts[a].id
                        < mm.db.next_task_id by {
                        if a < i {
                            assert(ts[a] == ots[a]);
                        } else {
                            assert(ts[a] == ots[a + 1]);
                        }
                    }
                    assert forall|a: int, b: int| 0 <= a < b < ts.len() implies #[trigger] ts[a].id
                        != #[trigger] ts[b].id by {
                        if a < i {
                            assert(ts[a] == ots[a]);
                        } else {
                            assert(ts[a] == ots[a + 1]);
                        }
                        if b < i {
                            assert(ts[b] == ots[b]);
                        } else {
                            assert(ts[b] == ots[b + 1]);
                        }
                    }
                }
                return Ok(());
            }
            i = i + 1;
        }
        proof {
            let q = |t: Task| t.id == id;
            assert forall|k: int| 0 <= k < n implies !q(mm.tasks()[k]) by {}
            lemma_first_idx_scan(mm.tasks(), q, n as int);
        }
        Err(Error::EntityNotFound { entity: "task", id })
    }
}

} // verus!
