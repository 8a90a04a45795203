//! Recording a caller's fantasy-platform id, once: a caller that already
//! has one is refused.

use vstd::prelude::*;

use crate::error::RejectedApi;
use crate::store::Store;
use crate::store::User;
use crate::users::find_by_id;
use crate::users::user_with_id;

verus! {

/// The request body: the platform id to record.
pub struct Payload {
    pub fpl_id: i32,
}

impl Payload {
    /// The request's validation rule: a positive platform id.
    pub open spec fn valid(&self) -> bool {
        self.fpl_id >= 1
    }

    /// Decide the validation rule.
    pub fn validate(&self) -> (b: bool)
        ensures
            b == self.valid(),
    {
        self.fpl_id >= 1
    }
}

/// Whether the caller already carries a platform id.
pub open spec fn already_has_fpl_id(users: Seq<User>, user_id: i32) -> bool {
    user_with_id(users, user_id) matches Some(u) && u.fpl_id is Some
}

/// The handler: refuse a caller that already has a platform id, else record
/// the given one on the caller's row (touching zero rows if the caller's
/// row is gone).
pub fn handler(store: &mut Store, user_id: i32, payload: &Payload) -> (r: Result<(), RejectedApi>)
    requires
        old(store).wf(),
        payload.valid(),
    ensures
        r is Ok <==> !already_has_fpl_id(old(store).users@, user_id),
        r is Err ==> (*final(store) == *old(store) && (r matches Err(RejectedApi::ClientError(s))
            && s@ == "user already have fpl_id"@)),
        r is Ok ==> {
            &&& final(store).users@.len() == old(store).users@.len()
            &&& forall|i: int|
                0 <= i < old(store).users@.len() ==> final(store).users@[i] == (
                if old(store).users@[i].id == user_id {
                    User { fpl_id: Some(payload.fpl_id), ..old(store).users@[i] }
                } else {
                    old(store).users@[i]
                })
            &&& final(store).events == old(store).events
            &&& final(store).matches == old(store).matches
            &&& final(store).transactions == old(store).transactions
        },
        final(store).wf(),
{
    let has_one = match find_by_id(store, user_id) {
        Some(user) => user.fpl_id.is_some(),
        None => false,
    };
    if has_one {
        return Err(RejectedApi::ClientError("user already have fpl_id".to_owned()));
    }
    crate::users::update_fpl_id(store, user_id, payload.fpl_id);
    Ok(())
}

} // verus!
