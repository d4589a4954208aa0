//! The store behind the model layer.
//!
//! Persistence itself is outside the core's scope; this store keeps
//! the rows in memory, with the same observable boundary: rows are
//! found by id, and a missing id is reported as "entity not found" by
//! the entity's controller.

use vstd::prelude::*;

use crate::model::task::Task;
use crate::model::user::User;

verus! {

/// The rows of every entity, and the next free id of each.
pub struct Db {
    pub tasks: Vec<Task>,
    pub next_task_id: i64,
    pub users: Vec<User>,
    pub next_user_id: i64,
}

/// Task rows are well formed: every id is positive, below the next
/// free id, and held by no other row.
pub open spec fn tasks_wf(tasks: Seq<Task>, next_id: i64) -> bool {
    &&& next_id >= 1
    &&& forall|i: int| 0 <= i < tasks.len() ==> 1 <= #[trigger] tasks[i].id < next_id
    &&& forall|i: int, j: int|
        0 <= i < j < tasks.len() ==> #[trigger] tasks[i].id != #[trigger] tasks[j].id
}

/// User rows are well formed: every id is positive, below the next
/// free id, and held by no other row.
pub open spec fn users_wf(users: Seq<User>, next_id: i64) -> bool {
    &&& next_id >= 1
    &&& forall|i: int| 0 <= i < users.len() ==> 1 <= #[trigger] users[i].id < next_id
    &&& forall|i: int, j: int|
        0 <= i < j < users.len() ==> #[trigger] users[i].id != #[trigger] users[j].id
}

impl Db {
    /// The task rows, in insertion order.
    pub open spec fn spec_tasks(&self) -> Seq<Task> {
        self.tasks@
    }

    /// The user rows, in insertion order.
    pub open spec fn spec_users(&self) -> Seq<User> {
        self.users@
    }

    /// The id the next created task will get.
    pub open spec fn spec_next_task_id(&self) -> i64 {
        self.next_task_id
    }

    /// The id the next created user will get.
    pub open spec fn spec_next_user_id(&self) -> i64 {
        self.next_user_id
    }

    /// Both entities' rows are well formed.
    pub open spec fn wf(&self) -> bool {
        &&& tasks_wf(self.tasks@, self.next_task_id)
        &&& users_wf(self.users@, self.next_user_id)
    }

    /// A fresh, empty store.
    pub fn new() -> (r: Db)
        ensures
            r.wf(),
            r.spec_tasks().len() == 0,
            r.spec_users().len() == 0,
            r.spec_next_task_id() == 1,
            r.spec_next_user_id() == 1,
    {
        Db { tasks: Vec::new(), next_task_id: 1, users: Vec::new(), next_user_id: 1 }
    }
}

} // verus!
