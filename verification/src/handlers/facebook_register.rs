//! Registering through an identity provider: the provider has already
//! vouched for the caller's id and email (outside the library); here an
//! already-registered identity is refused and a fresh user row is inserted
//! otherwise.

use vstd::prelude::*;

use crate::error::RejectedApi;
use crate::store::Store;
use crate::store::User;
use crate::users::CreateUser;
use crate::users::find_first_by_platform_id;
use crate::users::first_platform_user;
use crate::users::fresh_user;
use crate::users::save;

verus! {

/// The request body: the provider token, and the caller's fantasy-platform
/// id if they give one.
pub struct Payload {
    pub fpl_id: Option<i32>,
    pub access_token: String,
}

/// The handler's store half: given the vouched identity, refuse a second
/// registration of it, else insert the user under the next serial id and
/// hand the new row back for token issuance.
pub fn handler(
    store: &mut Store,
    platform_id: String,
    email: String,
    fpl_id: Option<i32>,
) -> (r: Result<User, RejectedApi>)
    requires
        old(store).wf(),
        old(store).next_user_id < i32::MAX,
    ensures
        r is Ok <==> first_platform_user(old(store).users@, None, Some(platform_id@)) is None,
        r is Err ==> (*final(store) == *old(store) && (r matches Err(RejectedApi::ClientError(s))
            && s@ == "User already existed"@)),
        r matches Ok(u) ==> {
            &&& u.email@ == email@
            &&& u.fpl_id == fpl_id
            &&& u.facebook_id matches Some(p) && p@ == platform_id@
            &&& u.google_id is None
            &&& u.id == old(store).next_user_id
            &&& final(store).users@ == old(store).users@.push(u)
            &&& final(store).next_user_id == old(store).next_user_id + 1
            &&& final(store).events == old(store).events
            &&& final(store).matches == old(store).matches
            &&& final(store).transactions == old(store).transactions
        },
        final(store).wf(),
{
    let existed = match find_first_by_platform_id(store, None, Some(platform_id.as_str())) {
        Some(_) => true,
        None => false,
    };
    if existed {
        return Err(RejectedApi::ClientError("User already existed".to_string()));
    }
    let data = CreateUser { email, fpl_id, google_id: None, facebook_id: Some(platform_id) };
    let new_user = save(store, data);
    Ok(new_user)
}

} // verus!
