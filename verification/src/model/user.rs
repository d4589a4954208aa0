//! User entity and its controller.
//!
//! Password material never reaches this layer: hashing belongs to the
//! credential boundary outside the core, so a user row carries the id
//! and the username only.

use vstd::prelude::*;

use crate::ctx::Ctx;
use crate::model::error::Error;
use crate::model::{first_idx, lemma_first_idx_scan, ModelManager};
use crate::strutil::str_eq;

verus! {

/// One user row.
pub struct User {
    pub id: i64,
    pub username: String,
}

impl Clone for User {
    fn clone(&self) -> (r: Self)
        ensures
            r == *self,
    {
        User { id: self.id, username: self.username.clone() }
    }
}

/// What a caller provides to create a user. The clear-text password
/// is consumed by the credential boundary, not stored here.
pub struct UserForCreate {
    pub username: String,
    pub pwd_clear: String,
}

/// Index of the user row holding `id`, `-1` when there is none.
pub open spec fn user_idx(users: Seq<User>, id: i64) -> int {
    first_idx(users, |u: User| u.id == id)
}

/// Index of the first user row whose username reads `name`, `-1` when
/// there is none.
pub open spec fn username_idx(users: Seq<User>, name: Seq<char>) -> int {
    first_idx(users, |u: User| u.username@ == name)
}

/// Controller for the user entity.
pub struct UserBmc;

impl UserBmc {
    /// Create a user with the next free id. Returns the id.
    pub fn create(_ctx: &Ctx, mm: &mut ModelManager, data: UserForCreate) -> (r: Result<
        i64,
        Error,
    >)
        requires
            old(mm).wf(),
            old(mm).next_user_id() < i64::MAX,
        ensures
            final(mm).wf(),
            r == Ok::<i64, Error>(old(mm).next_user_id()),
            final(mm).users() == old(mm).users().push(
                (User { id: old(mm).next_user_id(), username: data.username }),
            ),
            final(mm).next_user_id() == old(mm).next_user_id() + 1,
            final(mm).tasks() == old(mm).tasks(),
            final(mm).next_task_id() == old(mm).next_task_id(),
    {
        let id = mm.db.next_user_id;
        mm.db.users.push(User { id, username: data.username });
        mm.db.next_user_id = id + 1;
        proof {
            let us = mm.db.users@;
            let ous = old(mm).db.users@;
            assert forall|a: int| 0 <= a < us.len() implies 1 <= #[trigger] us[a].id
                < mm.db.next_user_id by {
                if a < ous.len() {
                    assert(us[a] == ous[a]);
                } else {
                    assert(us[a].id == old(mm).db.next_user_id);
                }
            }
            assert forall|a: int, b: int| 0 <= a < b < us.len() implies #[trigger] us[a].id
                != #[trigger] us[b].id by {
                assert(us[a] == ous[a]);
                if b < ous.len() {
                    assert(us[b] == ous[b]);
                } else {
                    assert(us[b].id == old(mm).db.next_user_id);
                }
            }
        }
        Ok(id)
    }

    /// Fetch the user holding `id`; fails with `EntityNotFound` when
    /// no row holds it.
    pub fn get(_ctx: &Ctx, mm: &ModelManager, id: i64) -> (r: Result<User, Error>)
        ensures
            ({
                let ui = user_idx(mm.users(), id);
                if ui >= 0 {
                    r matches Ok(u) && u == mm.users()[ui]
                } else {
                    r matches Err(e) && e matches Error::EntityNotFound { entity, id: eid }
                        && entity@ == "user"@ && eid == id
                }
            }),
    {
        let n = mm.db.users.len();
        let mut i: usize = 0;
        while i < n
            invariant
                i <= n,
                n == mm.users().len(),
                forall|k: int| 0 <= k < i ==> mm.users()[k].id != id,
            decreases n - i,
        {
            if mm.db.users[i].id == id {
                proof {
                    let q = |u: User| u.id == id;
                    assert forall|k: int| 0 <= k < i implies !q(mm.users()[k]) by {}
                    lemma_first_idx_scan(mm.users(), q, i as int);
                }
                return Ok(mm.db.users[i].clone());
            }
            i = i + 1;
        }
        proof {
            let q = |u: User| u.id == id;
            assert forall|k: int| 0 <= k < n implies !q(mm.users()[k]) by {}
            lemma_first_idx_scan(mm.users(), q, n as int);
        }
        Err(Error::EntityNotFound { entity: "user", id })
    }

    /// First user whose username reads `username`, or `None` when no
    /// row matches. The lookup itself cannot fail.
    pub fn first_by_username(_ctx: &Ctx, mm: &ModelManager, username: &str) -> (r: Result<
        Option<User>,
        Error,
    >)
        ensures
            ({
                let ui = username_idx(mm.users(), username@);
                if ui >= 0 {
                    r matches Ok(o) && o matches Some(u) && u == mm.users()[ui]
                } else {
                    r == Ok::<Option<User>, Error>(None)
                }
            }),
    {
        let n = mm.db.users.len();
        let mut i: usize = 0;
        while i < n
            invariant
                i <= n,
                n == mm.users().len(),
                forall|k: int| 0 <= k < i ==> mm.users()[k].username@ != username@,
            decreases n - i,
        {
            if str_eq(mm.db.users[i].username.as_str(), username) {
                proof {
                    let q = |u: User| u.username@ == username@;
                    assert forall|k: int| 0 <= k < i implies !q(mm.users()[k]) by {}
                    lemma_first_idx_scan(mm.users(), q, i as int);
                }
                return Ok(Some(mm.db.users[i].clone()));
            }
            i = i + 1;
        }
        proof {
            let q = |u: User| u.username@ == username@;
            assert forall|k: int| 0 <= k < n implies !q(mm.users()[k]) by {}
            lemma_first_idx_scan(mm.users(), q, n as int);
        }
        Ok(None)
    }
}

} // verus!
