//! The authenticated principal attached to a request.

use vstd::prelude::*;

verus! {

/// Immutable value object identifying the authenticated principal of a
/// request. It carries the principal's id and nothing else, so it never
/// outlives or pins any resource of the request.
pub struct Ctx {
    user_id: u64,
}

impl Ctx {
    /// Context for the given principal.
    pub fn new(user_id: u64) -> (r: Ctx)
        ensures
            r.user_id() == user_id,
    {
        Ctx { user_id }
    }

    /// Context of the root principal, used by system-internal callers.
    pub fn root_ctx() -> (r: Ctx)
        ensures
            r.user_id() == 0,
    {
        Ctx { user_id: 0 }
    }

    /// The principal's id.
    #[verifier::when_used_as_spec(spec_user_id)]
    pub fn user_id(&self) -> (r: u64)
        ensures
            r == self.spec_user_id(),
    {
        self.user_id
    }

    /// The principal's id, for contracts.
    pub closed spec fn spec_user_id(&self) -> u64 {
        self.user_id
    }
}

impl Clone for Ctx {
    fn clone(&self) -> (r: Self)
        ensures
            r == *self,
    {
        Ctx { user_id: self.user_id }
    }
}

} // verus!
