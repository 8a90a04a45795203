//! Token claims: the values the API layer signs into access and renewal
//! tokens. Signing and verification are cryptography and I/O and live
//! outside the library; what is verified here is how the claims are built.

use vstd::prelude::*;

use crate::clock::now_epoch;
use crate::decimal::append_decimal;
use crate::decimal::decimal_of;
use crate::store::User;

verus! {

/// The claims of an access token.
pub struct Claims {
    pub exp: u32,
    pub id: i32,
}

/// The claims of a renewal token.
pub struct SubClaims {
    pub exp: u32,
    pub sub: i32,
}

/// An authenticated caller, as the API layer's guard extracts it.
pub struct Guard(pub Claims);

/// An expiry instant clamped into the token field's range.
pub open spec fn clamped_exp(now_epoch_secs: int, expires_in_secs: int) -> int {
    let sum = now_epoch_secs + expires_in_secs;
    if sum < 0 {
        0
    } else if sum > u32::MAX {
        u32::MAX as int
    } else {
        sum
    }
}

/// The expiry timestamp of a token issued now and living this long, clamped
/// into the field's range.
pub fn exp_timestamp(now_epoch_secs: i64, expires_in_secs: i64) -> (r: u32)
    ensures
        r as int == clamped_exp(now_epoch_secs as int, expires_in_secs as int),
{
    let sum: i128 = (now_epoch_secs as i128) + (expires_in_secs as i128);
    if sum < 0 {
        0
    } else if sum > (u32::MAX as i128) {
        u32::MAX
    } else {
        sum as u32
    }
}

impl Claims {
    /// Claims for this user, expiring the given number of seconds from now.
    /// Whatever instant the wall clock read, the expiry is that instant
    /// plus the lifetime, clamped into the field.
    pub fn new(user: &User, expires_in_secs: i64) -> (r: Self)
        ensures
            r.id == user.id,
            exists|n: int|
                0 <= n <= 8_210_266_876_799 && r.exp as int == clamped_exp(
                    n,
                    expires_in_secs as int,
                ),
    {
        let now = now_epoch();
        let exp = exp_timestamp(now, expires_in_secs);
        proof {
            assert(exists|n: int|
                0 <= n <= 8_210_266_876_799 && exp as int == clamped_exp(
                    n,
                    expires_in_secs as int,
                )) by {
                assert(0 <= now as int <= 8_210_266_876_799 && exp as int == clamped_exp(
                    now as int,
                    expires_in_secs as int,
                ));
            }
        }
        Claims { id: user.id, exp }
    }
}

impl SubClaims {
    /// Renewal claims for this subject, expiring the given number of
    /// seconds from now; the expiry is pinned as for [`Claims::new`].
    pub fn new(sub: i32, expires_in_secs: i64) -> (r: Self)
        ensures
            r.sub == sub,
            exists|n: int|
                0 <= n <= 8_210_266_876_799 && r.exp as int == clamped_exp(
                    n,
                    expires_in_secs as int,
                ),
    {
        let now = now_epoch();
        let exp = exp_timestamp(now, expires_in_secs);
        proof {
            assert(exists|n: int|
                0 <= n <= 8_210_266_876_799 && exp as int == clamped_exp(
                    n,
                    expires_in_secs as int,
                )) by {
            assert(0 <= now as int <= 8_210_266_876_799 && exp as int == clamped_exp(
                    now as int,
                    expires_in_secs as int,
                ));
            }
        }
        SubClaims { sub, exp }
    }
}


/// The key a user's renewal token is stored under.
pub open spec fn renew_key_text(id: int) -> Seq<char> {
    "renew_token_of_"@ + decimal_of(id)
}

/// Render the storage key of a user's renewal token.
pub fn renew_key(id: i32) -> (r: String)
    ensures
        r@ == renew_key_text(id as int),
{
    let mut key = "renew_token_of_".to_owned();
    if id < 0 {
        key.append("-");
        proof {
            reveal_strlit("-");
        }
        let magnitude: u32 = (-(id as i64)) as u32;
        append_decimal(&mut key, magnitude);
        proof {
            assert("-"@ =~= seq!['-']);
            assert(key@ =~= renew_key_text(id as int));
        }
    } else {
        append_decimal(&mut key, id as u32);
    }
    key
}

} // verus!
