//! The match lifecycle driver: two jobs that advance matches along the
//! strictly linear state machine `Next -> Live -> Finished`, each as one
//! set-based conditional update filtered by status and gameweek.
//!
//! The module proves the lifecycle laws: a promotion never moves a status
//! backwards, and re-running a promotion against unchanged gameweek state is
//! a no-op.

use vstd::prelude::*;

use crate::event_status::first_current;
use crate::event_status::first_finished_previous;
use crate::store::Match;
use crate::store::MatchStatus;
use crate::store::Store;
use crate::store::StoreView;

verus! {

/// The match with its status replaced and every other column kept.
pub open spec fn with_status(m: Match, status: MatchStatus) -> Match {
    Match { status, ..m }
}

/// What the set-based update does to one row: matches the filter, move it;
/// otherwise leave it alone.
pub open spec fn promote_row(m: Match, from: MatchStatus, to: MatchStatus, gameweek: i32) -> Match {
    if m.status == from && m.gameweek == gameweek {
        with_status(m, to)
    } else {
        m
    }
}

/// The set-based update over the whole table.
pub open spec fn promote_all(
    matches: Seq<Match>,
    from: MatchStatus,
    to: MatchStatus,
    gameweek: i32,
) -> Seq<Match> {
    matches.map_values(|m: Match| promote_row(m, from, to, gameweek))
}

/// How far along the lifecycle a status is.
pub open spec fn status_rank(s: MatchStatus) -> int {
    match s {
        MatchStatus::Next => 0,
        MatchStatus::Live => 1,
        MatchStatus::Finished => 2,
    }
}

/// `a` does not come after `b` in the lifecycle.
pub open spec fn status_le(a: MatchStatus, b: MatchStatus) -> bool {
    status_rank(a) <= status_rank(b)
}

/// The "promote to live" job as a function of the store: no-op while the
/// feed reports no current gameweek, else the bulk update `Next -> Live`
/// filtered to the current gameweek.
pub open spec fn promote_live_view(v: StoreView) -> StoreView {
    match first_current(v.events) {
        None => v,
        Some(e) => StoreView {
            matches: promote_all(v.matches, MatchStatus::Next, MatchStatus::Live, e.gameweek),
            ..v
        },
    }
}

/// The "promote to finished" job: no-op while no finished previous gameweek
/// is reported, else the bulk update `Live -> Finished` filtered to it.
pub open spec fn promote_finished_view(v: StoreView) -> StoreView {
    match first_finished_previous(v.events) {
        None => v,
        Some(e) => StoreView {
            matches: promote_all(v.matches, MatchStatus::Live, MatchStatus::Finished, e.gameweek),
            ..v
        },
    }
}

/// The set-based update behind the "promote to live" job: every match with
/// `status = Next` and this gameweek becomes `Live`; no other row, and no
/// other column, moves.
pub fn update_all_next_round_to_live_by_gameweek(store: &mut Store, gameweek: i32)
    requires
        old(store).wf(),
    ensures
        final(store).matches@ == promote_all(
            old(store).matches@,
            MatchStatus::Next,
            MatchStatus::Live,
            gameweek,
        ),
        final(store).events == old(store).events,
        final(store).users == old(store).users,
        final(store).transactions == old(store).transactions,
        final(store).next_match_id == old(store).next_match_id,
        final(store).next_transaction_id == old(store).next_transaction_id,
        final(store).next_user_id == old(store).next_user_id,
        final(store).wf(),
{
    promote_matches(store, MatchStatus::Next, MatchStatus::Live, gameweek)
}

/// The set-based update behind the "promote to finished" job: every match
/// with `status = Live` and this gameweek becomes `Finished`.
pub fn update_all_live_to_finished_by_gameweek(store: &mut Store, gameweek: i32)
    requires
        old(store).wf(),
    ensures
        final(store).matches@ == promote_all(
            old(store).matches@,
            MatchStatus::Live,
            MatchStatus::Finished,
            gameweek,
        ),
        final(store).events == old(store).events,
        final(store).users == old(store).users,
        final(store).transactions == old(store).transactions,
        final(store).next_match_id == old(store).next_match_id,
        final(store).next_transaction_id == old(store).next_transaction_id,
        final(store).next_user_id == old(store).next_user_id,
        final(store).wf(),
{
    promote_matches(store, MatchStatus::Live, MatchStatus::Finished, gameweek)
}

/// One pass over the table applying [`promote_row`] to every row.
fn promote_matches(store: &mut Store, from: MatchStatus, to: MatchStatus, gameweek: i32)
    requires
        old(store).wf(),
    ensures
        final(store).matches@ == promote_all(old(store).matches@, from, to, gameweek),
        final(store).events == old(store).events,
        final(store).users == old(store).users,
        final(store).transactions == old(store).transactions,
        final(store).next_match_id == old(store).next_match_id,
        final(store).next_transaction_id == old(store).next_transaction_id,
        final(store).next_user_id == old(store).next_user_id,
        final(store).wf(),
{
    let n = store.matches.len();
    let mut i: usize = 0;
    while i < n
        invariant
            i <= n,
            n == store.matches@.len(),
            old(store).wf(),
            n == old(store).matches@.len(),
            forall|k: int|
                0 <= k < i ==> store.matches@[k] == promote_row(
                    old(store).matches@[k],
                    from,
                    to,
                    gameweek,
                ),
            forall|k: int| i <= k < n ==> store.matches@[k] == old(store).matches@[k],
            store.events == old(store).events,
            store.users == old(store).users,
            store.transactions == old(store).transactions,
            store.next_match_id == old(store).next_match_id,
            store.next_transaction_id == old(store).next_transaction_id,
            store.next_user_id == old(store).next_user_id,
        decreases n - i,
    {
        if store.matches[i].status == from && store.matches[i].gameweek == gameweek {
            let ghost before = store.matches@;
            let mut m = store.matches.remove(i);
            m.status = to;
            store.matches.insert(i, m);
            proof {
                assert(store.matches@ =~= before.update(
                    i as int,
                    with_status(old(store).matches@[i as int], to),
                ));
            }
        }
        i += 1;
    }
    proof {
        assert(store.matches@ =~= promote_all(old(store).matches@, from, to, gameweek));
        assert forall|a: int, b: int| 0 <= a < b < store.matches@.len() implies store.matches@[a].id
            < store.matches@[b].id by {
            assert(store.matches@[a].id == old(store).matches@[a].id);
            assert(store.matches@[b].id == old(store).matches@[b].id);
        }
    }
}

/// The "promote to live" job: read the current gameweek and run the bulk
/// update on it; a feed that has not reported one makes the tick a no-op.
pub fn update_matches_to_live(store: &mut Store)
    requires
        old(store).wf(),
    ensures
        final(store)@ == promote_live_view(old(store)@),
        final(store).wf(),
{
    let gameweek = match find_current_gameweek(store) {
        Some(gw) => gw,
        None => {
            return ;
        },
    };
    update_all_next_round_to_live_by_gameweek(store, gameweek);
    proof {
        assert(final(store)@ =~= promote_live_view(old(store)@));
    }
}

/// The "promote to finished" job: read the finished previous gameweek and
/// run the bulk update on it; none reported makes the tick a no-op.
pub fn update_matches_to_finished(store: &mut Store)
    requires
        old(store).wf(),
    ensures
        final(store)@ == promote_finished_view(old(store)@),
        final(store).wf(),
{
    let gameweek = match find_finished_previous_gameweek(store) {
        Some(gw) => gw,
        None => {
            return ;
        },
    };
    update_all_live_to_finished_by_gameweek(store, gameweek);
    proof {
        assert(final(store)@ =~= promote_finished_view(old(store)@));
    }
}

/// The current gameweek's number, if the feed has reported one.
fn find_current_gameweek(store: &Store) -> (r: Option<i32>)
    ensures
        match r {
            Some(gw) => first_current(store.events@) matches Some(e) && e.gameweek == gw,
            None => first_current(store.events@) is None,
        },
{
    match crate::event_status::find_current_event(store) {
        Some(e) => Some(e.gameweek),
        None => None,
    }
}

/// The finished previous gameweek's number, if the feed has reported one.
fn find_finished_previous_gameweek(store: &Store) -> (r: Option<i32>)
    ensures
        match r {
            Some(gw) => first_finished_previous(store.events@) matches Some(e) && e.gameweek == gw,
            None => first_finished_previous(store.events@) is None,
        },
{
    match crate::event_status::find_finished_previous_event(store) {
        Some(e) => Some(e.gameweek),
        None => None,
    }
}

/// Lifecycle monotonicity: neither promotion job ever moves a match's
/// status backwards, and neither touches any other column or row.
pub proof fn lemma_lifecycle_monotonic(v: StoreView)
    ensures
        promote_live_view(v).matches.len() == v.matches.len(),
        forall|i: int|
            0 <= i < v.matches.len() ==> status_le(
                v.matches[i].status,
                promote_live_view(v).matches[i].status,
            ),
        promote_finished_view(v).matches.len() == v.matches.len(),
        forall|i: int|
            0 <= i < v.matches.len() ==> status_le(
                v.matches[i].status,
                promote_finished_view(v).matches[i].status,
            ),
{
}

/// Lifecycle idempotence: running a promotion job twice in a row against
/// unchanged gameweek state changes nothing the second time.
pub proof fn lemma_promote_live_idempotent(v: StoreView)
    ensures
        promote_live_view(promote_live_view(v)) == promote_live_view(v),
{
    match first_current(v.events) {
        None => {},
        Some(e) => {
            let v1 = promote_live_view(v);
            assert(v1.events == v.events);
            assert(promote_all(
                v1.matches,
                MatchStatus::Next,
                MatchStatus::Live,
                e.gameweek,
            ) =~= v1.matches);
            assert(promote_live_view(v1) =~= v1);
        },
    }
}

/// Lifecycle idempotence for the second job.
pub proof fn lemma_promote_finished_idempotent(v: StoreView)
    ensures
        promote_finished_view(promote_finished_view(v)) == promote_finished_view(v),
{
    match first_finished_previous(v.events) {
        None => {},
        Some(e) => {
            let v1 = promote_finished_view(v);
            assert(v1.events == v.events);
            assert(promote_all(
                v1.matches,
                MatchStatus::Live,
                MatchStatus::Finished,
                e.gameweek,
            ) =~= v1.matches);
            assert(promote_finished_view(v1) =~= v1);
        },
    }
}

} // verus!
