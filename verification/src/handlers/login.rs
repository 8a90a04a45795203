//! Logging in: the identity provider has already vouched for the caller
//! (outside the library); here the vouched platform id is resolved to the
//! registered user and the token claims are built. Signing the claims and
//! storing the renewal token are I/O and stay outside.

use vstd::prelude::*;

use crate::auth::Claims;
use crate::auth::SubClaims;
use crate::error::RejectedApi;
use crate::store::Store;
use crate::users::find_first_by_platform_id;
use crate::users::first_platform_user;

verus! {

/// Which identity provider vouched for the caller.
#[derive(Clone, Copy, Debug, PartialEq, Eq, Structural)]
pub enum LoginOption {
    Facebook,
    Google,
}

/// The request body: the provider token and which provider issued it.
pub struct Payload {
    pub access_token: String,
    pub option: LoginOption,
}

/// How long an access token lives: seven days, in seconds.
pub open spec fn access_token_lifetime() -> int {
    604800
}

/// How long a renewal token lives: a year, in seconds.
pub open spec fn renew_token_lifetime() -> int {
    31536000
}

/// The identity filters a provider's vouched id stands for.
pub open spec fn login_filters(option: LoginOption, platform_id: Seq<char>) -> (
    Option<Seq<char>>,
    Option<Seq<char>>,
) {
    match option {
        LoginOption::Google => (Some(platform_id), None),
        LoginOption::Facebook => (None, Some(platform_id)),
    }
}

/// The handler's store half: resolve the vouched platform id to the
/// registered user and build both tokens' claims; an unknown identity is an
/// authentication refusal.
pub fn handler(store: &Store, option: LoginOption, platform_id: &str) -> (r: Result<
    (Claims, SubClaims),
    RejectedApi,
>)
    ensures
        ({
            let found = first_platform_user(
                store.users@,
                login_filters(option, platform_id@).0,
                login_filters(option, platform_id@).1,
            );
            match r {
                Ok((claims, sub_claims)) => found matches Some(u) && claims.id == u.id
                    && sub_claims.sub == u.id,
                Err(e) => found is None && (e matches RejectedApi::AuthenticationError(s) && s@
                    == "user not found"@),
            }
        }),
{
    let found = match option {
        LoginOption::Google => find_first_by_platform_id(store, Some(platform_id), None),
        LoginOption::Facebook => find_first_by_platform_id(store, None, Some(platform_id)),
    };
    match found {
        Some(user) => {
            let claims = Claims::new(user, 604800);
            let sub_claims = SubClaims::new(user.id, 31536000);
            Ok((claims, sub_claims))
        },
        None => Err(RejectedApi::AuthenticationError("user not found".to_owned())),
    }
}

} // verus!
