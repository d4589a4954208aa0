//! Model layer: the application's entities and their access methods.
//!
//! All data access of the application goes through this layer. The
//! [`ModelManager`] holds the store the entity controllers
//! ([`task::TaskBmc`], [`user::UserBmc`]) work on; persistence behind
//! the store is out of the core's scope, so the store keeps the rows
//! in memory and exposes exactly the boundary the rest of the backend
//! depends on: an "entity not found" failure kind and a generic
//! storage failure kind.

pub mod error;
pub mod store;
pub mod task;
pub mod user;

use vstd::prelude::*;

pub use error::Error;

use store::Db;

verus! {

/// Holds the state the entity controllers need to access data. Passed
/// as an argument to every controller method.
pub struct ModelManager {
    pub db: Db,
}

impl ModelManager {
    /// The task rows, in insertion order.
    pub open spec fn tasks(&self) -> Seq<task::Task> {
        self.db.spec_tasks()
    }

    /// The user rows, in insertion order.
    pub open spec fn users(&self) -> Seq<user::User> {
        self.db.spec_users()
    }

    /// The id the next created task will get.
    pub open spec fn next_task_id(&self) -> i64 {
        self.db.spec_next_task_id()
    }

    /// The id the next created user will get.
    pub open spec fn next_user_id(&self) -> i64 {
        self.db.spec_next_user_id()
    }

    /// Row ids are positive, bounded by the next free id, and unique
    /// within their entity.
    pub open spec fn wf(&self) -> bool {
        self.db.wf()
    }

    /// A manager over a fresh, empty store.
    pub fn new() -> (r: Result<ModelManager, Error>)
        ensures
            r matches Ok(mm) && mm.wf() && mm.tasks().len() == 0 && mm.users().len() == 0
                && mm.next_task_id() == 1 && mm.next_user_id() == 1,
    {
        Ok(ModelManager { db: Db::new() })
    }

    /// The store this manager works on.
    pub fn db(&self) -> (r: &Db)
        ensures
            r == &self.db,
    {
        &self.db
    }
}

/// Index of the first row satisfying `p`, `-1` when there is none.
pub open spec fn first_idx<T>(s: Seq<T>, p: spec_fn(T) -> bool) -> int
    decreases s.len(),
{
    if s.len() == 0 {
        -1
    } else if p(s[0]) {
        0
    } else {
        let r = first_idx(s.drop_first(), p);
        if r == -1 {
            -1
        } else {
            r + 1
        }
    }
}

/// A scan that saw no hit before `i`, and a hit at `i` unless it ran
/// off the end, has found the first hit.
pub proof fn lemma_first_idx_scan<T>(s: Seq<T>, p: spec_fn(T) -> bool, i: int)
    requires
        0 <= i <= s.len(),
        forall|k: int| 0 <= k < i ==> !p(s[k]),
        i < s.len() ==> p(s[i]),
    ensures
        first_idx(s, p) == if i == s.len() {
            -1
        } else {
            i
        },
    decreases s.len(),
{
    if s.len() == 0 {
    } else if p(s[0]) {
        assert(i == 0);
    } else {
        assert(0 < i);
        lemma_first_idx_scan(s.drop_first(), p, i - 1);
    }
}

/// What the first-hit index means: it is in range, it hits, nothing
/// before it hits, and `-1` means nothing hits at all.
pub proof fn lemma_first_idx_props<T>(s: Seq<T>, p: spec_fn(T) -> bool)
    ensures
        -1 <= first_idx(s, p) < s.len(),
        first_idx(s, p) >= 0 ==> p(s[first_idx(s, p)]),
        first_idx(s, p) >= 0 ==> forall|k: int| 0 <= k < first_idx(s, p) ==> !p(s[k]),
        first_idx(s, p) == -1 ==> forall|k: int| 0 <= k < s.len() ==> !p(s[k]),
    decreases s.len(),
{
    if s.len() > 0 && !p(s[0]) {
        lemma_first_idx_props(s.drop_first(), p);
        let fi = first_idx(s, p);
        if fi >= 0 {
            assert forall|k: int| 0 <= k < fi implies !p(s[k]) by {
                if k > 0 {
                    assert(s.drop_first()[k - 1] == s[k]);
                }
            }
        } else {
            assert forall|k: int| 0 <= k < s.len() implies !p(s[k]) by {
                if k > 0 {
                    assert(s.drop_first()[k - 1] == s[k]);
                }
            }
        }
    }
}

} // verus!
