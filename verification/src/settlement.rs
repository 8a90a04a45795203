//! The settlement transaction: create a batch of matches for a user, escrow
//! the stake from the user's balance, and record one ledger entry — all or
//! nothing. Validation failures return before anything mutates, so a failed
//! call leaves the store exactly as it was.

use vstd::prelude::*;

use crate::store::ChipRule;
use crate::store::Match;
use crate::store::MatchStatus;
use crate::store::Store;
use crate::store::StoreView;
use crate::store::Transaction;
use crate::store::TransactionFlag;
use crate::store::TransactionType;
use crate::store::TransferRule;
use crate::store::User;
use crate::users::has_user_id;
use crate::users::index_of_user;
use crate::users::lemma_index_of_user;
use crate::users::user_with_id;

verus! {

/// Why a settlement request was refused; refusal mutates nothing.
#[derive(Clone, Copy, Debug, PartialEq, Eq, Structural)]
pub enum SettlementError {
    /// The request itself is malformed: no matches asked for, or a
    /// non-positive bet.
    InvalidRequest,
    /// No user row carries the creator's id.
    UserNotFound,
    /// The creator's balance does not cover the escrow.
    InsufficientFunds,
}

/// The text the ledger message carries for a batch of this size.
pub open spec fn created_matches_message(quantity: int) -> Seq<char> {
    "You have created "@ + crate::decimal::dec_digits(quantity) + " matches"@
}

/// Render the ledger message for a batch of this size.
fn format_created_matches_message(quantity: u32) -> (r: String)
    ensures
        r@ == created_matches_message(quantity as int),
{
    let mut message = "You have created ".to_owned();
    crate::decimal::append_decimal(&mut message, quantity);
    message.append(" matches");
    proof {
        assert(message@ =~= created_matches_message(quantity as int));
    }
    message
}

/// The rule selections a created match carries.
#[derive(Clone, Copy, Debug, PartialEq, Eq, Structural)]
pub struct MatchRules {
    pub chip_rule: ChipRule,
    pub transfer_rule: TransferRule,
    pub is_private: bool,
}

/// One row of a freshly created batch: owned by the creator, staked at the
/// bet, waiting on the target gameweek, opponent and winner unset.
pub open spec fn new_match_ok(
    m: Match,
    id: i32,
    creator_id: i32,
    bet_amount: i32,
    game_week: i32,
    rules: MatchRules,
    season: Seq<char>,
    created_date: i64,
) -> bool {
    &&& m.id == id
    &&& m.season@ == season
    &&& m.created_date == created_date
    &&& m.matched_at is None
    &&& m.bet_amount == bet_amount
    &&& m.owner_id == creator_id
    &&& m.opponent_id is None
    &&& !m.is_draw
    &&& !m.is_matched
    &&& m.owner_point == 0
    &&& m.opponent_point == 0
    &&& m.winner_id is None
    &&& m.gameweek == game_week
    &&& m.transfer_rule == rules.transfer_rule
    &&& m.chip_rule == rules.chip_rule
    &&& m.status == MatchStatus::Next
    &&& m.is_private == rules.is_private
}

/// The balance the creator's row holds, when the row exists.
pub open spec fn balance_of(users: Seq<User>, id: i32) -> int {
    match user_with_id(users, id) {
        Some(u) => u.d_coin as int,
        None => 0,
    }
}

/// A relative balance update on one user row, as the storage layer's
/// arithmetic update: the matching row moves by the signed amount, every
/// other row is untouched; a missing user updates zero rows.
pub fn update_d_coin(store: &mut Store, user_id: i32, d_coin: i32, kind: TransactionFlag)
    requires
        old(store).wf(),
        d_coin >= 0,
        forall|i: int|
            0 <= i < old(store).users@.len() && old(store).users@[i].id == user_id ==> i32::MIN <= (
            match kind {
                TransactionFlag::Up => old(store).users@[i].d_coin + d_coin,
                TransactionFlag::Down => old(store).users@[i].d_coin - d_coin,
            }) <= i32::MAX,
    ensures
        final(store).users@.len() == old(store).users@.len(),
        forall|i: int|
            0 <= i < old(store).users@.len() ==> final(store).users@[i] == (
            if old(store).users@[i].id == user_id {
                User {
                    d_coin: (match kind {
                        TransactionFlag::Up => old(store).users@[i].d_coin + d_coin,
                        TransactionFlag::Down => old(store).users@[i].d_coin - d_coin,
                    }) as i32,
                    ..old(store).users@[i]
                }
            } else {
                old(store).users@[i]
            }),
        final(store).events == old(store).events,
        final(store).matches == old(store).matches,
        final(store).transactions == old(store).transactions,
        final(store).next_match_id == old(store).next_match_id,
        final(store).next_transaction_id == old(store).next_transaction_id,
        final(store).next_user_id == old(store).next_user_id,
        final(store).wf(),
{
    let n = store.users.len();
    let mut i: usize = 0;
    while i < n
        invariant
            i <= n,
            n == store.users@.len(),
            n == old(store).users@.len(),
            old(store).wf(),
            d_coin >= 0,
            forall|k: int|
                0 <= k < n && old(store).users@[k].id == user_id ==> i32::MIN <= (match kind {
                    TransactionFlag::Up => old(store).users@[k].d_coin + d_coin,
                    TransactionFlag::Down => old(store).users@[k].d_coin - d_coin,
                }) <= i32::MAX,
            forall|k: int|
                0 <= k < i ==> store.users@[k] == (if old(store).users@[k].id == user_id {
                    User {
                        d_coin: (match kind {
                            TransactionFlag::Up => old(store).users@[k].d_coin + d_coin,
                            TransactionFlag::Down => old(store).users@[k].d_coin - d_coin,
                        }) as i32,
                        ..old(store).users@[k]
                    }
                } else {
                    old(store).users@[k]
                }),
            forall|k: int| i <= k < n ==> store.users@[k] == old(store).users@[k],
            store.events == old(store).events,
            store.matches == old(store).matches,
            store.transactions == old(store).transactions,
            store.next_match_id == old(store).next_match_id,
            store.next_transaction_id == old(store).next_transaction_id,
            store.next_user_id == old(store).next_user_id,
        decreases n - i,
    {
        if store.users[i].id == user_id {
            let ghost before = store.users@;
            let mut u = store.users.remove(i);
            u.d_coin = match kind {
                TransactionFlag::Up => u.d_coin + d_coin,
                TransactionFlag::Down => u.d_coin - d_coin,
            };
            store.users.insert(i, u);
            proof {
                assert(store.users@ =~= before.update(i as int, store.users@[i as int]));
            }
        }
        i += 1;
    }
}

/// What a committed settlement did, relating the store before to the store
/// after: `quantity` new match rows, the creator debited by
/// `bet_amount * quantity`, one ledger entry recording the debit with its
/// metadata, and nothing else moved.
pub open spec fn settled(
    pre: StoreView,
    post: StoreView,
    creator_id: i32,
    bet_amount: i32,
    quantity: u32,
    game_week: i32,
    rules: MatchRules,
    season: Seq<char>,
) -> bool {
    &&& post.matches.len() == pre.matches.len() + quantity
    &&& post.matches.subrange(0, pre.matches.len() as int) == pre.matches
    &&& forall|j: int|
        0 <= j < quantity ==> new_match_ok(
            #[trigger] post.matches[pre.matches.len() + j],
            (pre.next_match_id + j) as i32,
            creator_id,
            bet_amount,
            game_week,
            rules,
            season,
            post.matches[pre.matches.len() as int].created_date,
        )
    &&& post.next_match_id == pre.next_match_id + quantity
    &&& post.users.len() == pre.users.len()
    &&& forall|i: int|
        0 <= i < pre.users.len() ==> post.users[i] == (if pre.users[i].id == creator_id {
            User {
                d_coin: (pre.users[i].d_coin - bet_amount * quantity) as i32,
                ..pre.users[i]
            }
        } else {
            pre.users[i]
        })
    &&& post.transactions.len() == pre.transactions.len() + 1
    &&& post.transactions.subrange(0, pre.transactions.len() as int) == pre.transactions
    &&& {
        let entry = post.transactions.last();
        &&& entry.id == pre.next_transaction_id
        &&& entry.created_date == post.matches[pre.matches.len() as int].created_date
        &&& entry.owner_id == creator_id
        &&& entry.kind == TransactionType::CreateMatch
        &&& entry.d_coin == bet_amount * quantity
        &&& entry.delta() == -(bet_amount * quantity)
        &&& entry.message matches Some(msg) && msg@ == created_matches_message(quantity as int)
        &&& entry.quantity == quantity
        &&& entry.on_gameweek == game_week
        &&& entry.flag == TransactionFlag::Down
    }
    &&& post.next_transaction_id == pre.next_transaction_id + 1
    &&& post.events == pre.events
    &&& post.next_user_id == pre.next_user_id
}

/// The settlement transaction. Re-validates the request, then — atomically,
/// in the sense that a refusal mutates nothing — inserts `quantity` match
/// rows, debits the creator by `bet_amount * quantity`, and appends one
/// ledger entry carrying the total and the batch metadata.
pub fn create_matches(
    store: &mut Store,
    creator_id: i32,
    bet_amount: i32,
    quantity: u32,
    game_week: i32,
    rules: MatchRules,
    season: &str,
) -> (r: Result<(), SettlementError>)
    requires
        old(store).wf(),
        old(store).next_match_id + quantity <= i32::MAX,
        old(store).next_transaction_id < i32::MAX,
    ensures
        r == Ok::<(), SettlementError>(()) <==> {
            &&& quantity >= 1
            &&& bet_amount >= 1
            &&& has_user_id(old(store).users@, creator_id)
            &&& balance_of(old(store).users@, creator_id) >= bet_amount * quantity
        },
        r == Err::<(), SettlementError>(SettlementError::InvalidRequest) <==> (quantity < 1
            || bet_amount < 1),
        r == Err::<(), SettlementError>(SettlementError::UserNotFound) <==> (quantity >= 1
            && bet_amount >= 1 && !has_user_id(old(store).users@, creator_id)),
        r == Err::<(), SettlementError>(SettlementError::InsufficientFunds) <==> (quantity >= 1
            && bet_amount >= 1 && has_user_id(old(store).users@, creator_id) && balance_of(
            old(store).users@,
            creator_id,
        ) < bet_amount * quantity),
        r is Err ==> *final(store) == *old(store),
        r is Ok ==> settled(
            old(store)@,
            final(store)@,
            creator_id,
            bet_amount,
            quantity,
            game_week,
            rules,
            season@,
        ),
        final(store).wf(),
{
    if quantity < 1 || bet_amount < 1 {
        return Err(SettlementError::InvalidRequest);
    }
    proof {
        assert((bet_amount as int) * (quantity as int) < 0x8000_0000_0000_0000
            && (bet_amount as int) * (quantity as int) >= 0) by (nonlinear_arith)
            requires
                1 <= bet_amount < 0x8000_0000,
                0 <= quantity < 0x1_0000_0000,
        ;
    }
    let total_i64: i64 = (bet_amount as i64) * (quantity as i64);
    let balance: i32 = match crate::users::find_by_id(store, creator_id) {
        Some(u) => u.d_coin,
        None => {
            return Err(SettlementError::UserNotFound);
        },
    };
    proof {
        lemma_index_of_user(old(store).users@, creator_id);
    }
    if (balance as i64) < total_i64 {
        return Err(SettlementError::InsufficientFunds);
    }
    let total: i32 = total_i64 as i32;
    let created_date = crate::clock::now_epoch();

    // insert the match rows
    let ghost matches_before = store.matches@;
    let mut j: u32 = 0;
    while j < quantity
        invariant
            j <= quantity,
            old(store).wf(),
            old(store).next_match_id + quantity <= i32::MAX,
            store.matches@.len() == matches_before.len() + j,
            matches_before == old(store).matches@,
            store.matches@.subrange(0, matches_before.len() as int) == matches_before,
            forall|k: int|
                0 <= k < j ==> new_match_ok(
                    #[trigger] store.matches@[matches_before.len() + k],
                    (old(store).next_match_id + k) as i32,
                    creator_id,
                    bet_amount,
                    game_week,
                    rules,
                    season@,
                    created_date,
                ),
            store.next_match_id == old(store).next_match_id,
            store.events == old(store).events,
            store.users == old(store).users,
            store.transactions == old(store).transactions,
            store.next_transaction_id == old(store).next_transaction_id,
            store.next_user_id == old(store).next_user_id,
        decreases quantity - j,
    {
        let row = Match {
            id: store.next_match_id + (j as i32),
            season: season.to_owned(),
            created_date,
            matched_at: None,
            bet_amount,
            owner_id: creator_id,
            opponent_id: None,
            is_draw: false,
            is_matched: false,
            owner_point: 0,
            opponent_point: 0,
            winner_id: None,
            gameweek: game_week,
            transfer_rule: rules.transfer_rule,
            chip_rule: rules.chip_rule,
            status: MatchStatus::Next,
            is_private: rules.is_private,
        };
        let ghost before_push = store.matches@;
        store.matches.push(row);
        proof {
            assert(store.matches@.subrange(0, matches_before.len() as int) =~= before_push.subrange(
                0,
                matches_before.len() as int,
            ));
            assert(store.matches@[matches_before.len() + j as int] == row);
            assert(new_match_ok(
                row,
                (old(store).next_match_id + j as int) as i32,
                creator_id,
                bet_amount,
                game_week,
                rules,
                season@,
                created_date,
            ));
        }
        j += 1;
    }
    store.next_match_id = store.next_match_id + (quantity as i32);

    // collect the escrow
    proof {
        let len0 = matches_before.len() as int;
        let next0 = old(store).next_match_id as int;
        assert forall|a: int, b: int|
            0 <= a < b < store.matches@.len() implies store.matches@[a].id
            < store.matches@[b].id by {
            if b < len0 {
                assert(store.matches@.subrange(0, len0)[a] == store.matches@[a]);
                assert(store.matches@.subrange(0, len0)[b] == store.matches@[b]);
            } else if a < len0 {
                assert(store.matches@.subrange(0, len0)[a] == store.matches@[a]);
                assert(store.matches@[a] == old(store).matches@[a]);
                assert(old(store).matches@[a].id < old(store).next_match_id);
                assert(new_match_ok(
                    store.matches@[len0 + (b - len0)],
                    (next0 + (b - len0)) as i32,
                    creator_id,
                    bet_amount,
                    game_week,
                    rules,
                    season@,
                    created_date,
                ));
            } else {
                assert(new_match_ok(
                    store.matches@[len0 + (a - len0)],
                    (next0 + (a - len0)) as i32,
                    creator_id,
                    bet_amount,
                    game_week,
                    rules,
                    season@,
                    created_date,
                ));
                assert(new_match_ok(
                    store.matches@[len0 + (b - len0)],
                    (next0 + (b - len0)) as i32,
                    creator_id,
                    bet_amount,
                    game_week,
                    rules,
                    season@,
                    created_date,
                ));
            }
        }
        assert forall|i: int|
            0 <= i < store.matches@.len() implies store.matches@[i].id
            < store.next_match_id by {
            if i < len0 {
                assert(store.matches@.subrange(0, len0)[i] == store.matches@[i]);
                assert(store.matches@[i] == old(store).matches@[i]);
            } else {
                assert(new_match_ok(
                    store.matches@[len0 + (i - len0)],
                    (next0 + (i - len0)) as i32,
                    creator_id,
                    bet_amount,
                    game_week,
                    rules,
                    season@,
                    created_date,
                ));
            }
        }
        assert(store.wf());
        lemma_index_of_user(store.users@, creator_id);
        assert(balance_of(old(store).users@, creator_id) >= total);
        assert forall|i: int|
            0 <= i < store.users@.len() && store.users@[i].id == creator_id implies i32::MIN
            <= store.users@[i].d_coin - total <= i32::MAX by {
            assert(i == index_of_user(store.users@, creator_id));
        }
    }
    update_d_coin(store, creator_id, total, TransactionFlag::Down);

    // record the ledger entry
    let message = format_created_matches_message(quantity);
    let entry = Transaction {
        id: store.next_transaction_id,
        created_date,
        owner_id: creator_id,
        kind: TransactionType::CreateMatch,
        d_coin: total,
        message: Some(message),
        quantity,
        on_gameweek: game_week,
        flag: TransactionFlag::Down,
    };
    let ghost transactions_before = store.transactions@;
    store.transactions.push(entry);
    store.next_transaction_id = store.next_transaction_id + 1;
    proof {
        assert(store.transactions@.subrange(0, transactions_before.len() as int)
            =~= transactions_before);
        let len0 = old(store).matches@.len() as int;
        assert(new_match_ok(
            store.matches@[len0 + 0],
            (old(store).next_match_id + 0) as i32,
            creator_id,
            bet_amount,
            game_week,
            rules,
            season@,
            created_date,
        ));
        assert(store.matches@[len0].created_date == created_date);
    }
    Ok(())
}

} // verus!
