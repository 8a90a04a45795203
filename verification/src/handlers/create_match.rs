//! Creating a batch of matches: validate the request, pick the next
//! gameweek as the target, re-check the creator's balance, and run the
//! settlement transaction.

use vstd::prelude::*;

use crate::error::RejectedApi;
use crate::event_status::find_next_event;
use crate::event_status::first_next;
use crate::settlement::MatchRules;
use crate::settlement::balance_of;
use crate::settlement::create_matches;
use crate::settlement::settled;
use crate::store::ChipRule;
use crate::store::Store;
use crate::store::TransferRule;
use crate::users::find_by_id;
use crate::users::has_user_id;

verus! {

/// The request body: how many matches, at what bet, under which rules.
pub struct Payload {
    pub bet: i32,
    pub quantity: u32,
    pub chip_rule: ChipRule,
    pub transfer_rule: TransferRule,
    pub is_private: Option<bool>,
    pub min_week_started: Option<i32>,
}

impl Payload {
    /// The request's validation rules: positive bet and quantity, and a
    /// positive minimum week where one is given.
    pub open spec fn valid(&self) -> bool {
        &&& self.bet >= 1
        &&& self.quantity >= 1
        &&& match self.min_week_started {
            Some(m) => m >= 1,
            None => true,
        }
    }

    /// Decide the validation rules.
    pub fn validate(&self) -> (b: bool)
        ensures
            b == self.valid(),
    {
        let min_ok = match self.min_week_started {
            Some(m) => m >= 1,
            None => true,
        };
        self.bet >= 1 && self.quantity >= 1 && min_ok
    }

    /// The rule selections the created matches carry; an omitted privacy
    /// flag defaults to public.
    pub open spec fn rules(&self) -> MatchRules {
        MatchRules {
            chip_rule: self.chip_rule,
            transfer_rule: self.transfer_rule,
            is_private: match self.is_private {
                Some(b) => b,
                None => false,
            },
        }
    }
}

/// The season tag stamped on created matches.
pub open spec fn season_tag() -> Seq<char> {
    "23-24"@
}

/// The handler: matches are created against the next gameweek; a missing
/// next gameweek, a missing creator, or a short balance refuses the request
/// before anything mutates.
pub fn handler(store: &mut Store, user_id: i32, payload: &Payload) -> (r: Result<(), RejectedApi>)
    requires
        old(store).wf(),
        payload.valid(),
        payload.bet * payload.quantity <= i32::MAX,
        old(store).next_match_id + payload.quantity <= i32::MAX,
        old(store).next_transaction_id < i32::MAX,
    ensures
        r is Ok <==> {
            &&& first_next(old(store).events@) is Some
            &&& has_user_id(old(store).users@, user_id)
            &&& balance_of(old(store).users@, user_id) >= payload.bet * payload.quantity
        },
        first_next(old(store).events@) is None ==> (r matches Err(
            RejectedApi::InternalError(s),
        ) && s@ == "not found next gameweek"@),
        first_next(old(store).events@) is Some && !has_user_id(old(store).users@, user_id) ==> (
        r matches Err(RejectedApi::AuthenticationError(s)) && s@ == "not found user"@),
        first_next(old(store).events@) is Some && has_user_id(old(store).users@, user_id)
            && balance_of(old(store).users@, user_id) < payload.bet * payload.quantity ==> (
        r matches Err(RejectedApi::ClientError(s)) && s@ == "not d_coin enough"@),
        r is Ok ==> settled(
            old(store)@,
            final(store)@,
            user_id,
            payload.bet,
            payload.quantity,
            first_next(old(store).events@)->Some_0.gameweek,
            payload.rules(),
            season_tag(),
        ),
        r is Err ==> *final(store) == *old(store),
        final(store).wf(),
{
    let next_gameweek: i32 = match find_next_event(store) {
        Some(e) => e.gameweek,
        None => {
            return Err(RejectedApi::InternalError("not found next gameweek".to_owned()));
        },
    };
    proof {
        assert((payload.quantity as int) <= i32::MAX && (payload.quantity as int) * (
        payload.bet as int) <= i32::MAX && (payload.quantity as int) * (payload.bet as int)
            >= 1) by (nonlinear_arith)
            requires
                payload.bet >= 1,
                payload.quantity >= 1,
                (payload.bet as int) * (payload.quantity as int) <= i32::MAX,
        ;
    }
    proof {
        assert((payload.quantity as int) * (payload.bet as int) == (payload.bet as int) * (
        payload.quantity as int)) by (nonlinear_arith);
    }
    let total_d_coin: i32 = (payload.quantity as i32) * payload.bet;

    match find_by_id(store, user_id) {
        None => {
            return Err(RejectedApi::AuthenticationError("not found user".to_owned()));
        },
        Some(user) => {
            proof {
                assert(balance_of(old(store).users@, user_id) == user.d_coin as int);
            }
            if user.d_coin < total_d_coin {
                return Err(RejectedApi::ClientError("not d_coin enough".to_owned()));
            }
        },
    }
    proof {
        assert(has_user_id(old(store).users@, user_id));
        assert(balance_of(old(store).users@, user_id) >= payload.bet * payload.quantity);
    }

    let rules = MatchRules {
        chip_rule: payload.chip_rule,
        transfer_rule: payload.transfer_rule,
        is_private: match payload.is_private {
            Some(b) => b,
            None => false,
        },
    };
    let result = create_matches(
        store,
        user_id,
        payload.bet,
        payload.quantity,
        next_gameweek,
        rules,
        "23-24",
    );
    match result {
        Ok(_) => Ok(()),
        Err(_) => {
            proof {
                assert(false);
            }
            Err(RejectedApi::InternalError(String::new()))
        },
    }
}

} // verus!
