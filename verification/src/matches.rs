//! The match listing query: filter by owner, participant, exclusion, season
//! and status, join the owner, opponent and winner user rows, order by match
//! id, and paginate — with the total count of matching rows alongside.

use vstd::prelude::*;

use crate::store::Match;
use crate::store::MatchStatus;
use crate::store::Store;
use crate::store::User;
use crate::users::find_by_id;
use crate::users::user_with_id;

verus! {

/// The filters and the page of a match listing.
pub struct FindMatchesParams {
    pub take: u64,
    pub page: u64,
    pub created_by: Option<i32>,
    pub joined_by_or_created: Option<i32>,
    pub exclude_created_by: Option<i32>,
    pub status: MatchStatus,
    pub season: Option<String>,
}

impl Default for FindMatchesParams {
    /// No filters, the default status, and an empty page.
    fn default() -> (r: Self)
        ensures
            r.take == 0,
            r.page == 0,
            r.created_by is None,
            r.joined_by_or_created is None,
            r.exclude_created_by is None,
            r.status == MatchStatus::Next,
            r.season is None,
    {
        FindMatchesParams {
            take: 0,
            page: 0,
            created_by: None,
            joined_by_or_created: None,
            exclude_created_by: None,
            status: MatchStatus::Next,
            season: None,
        }
    }
}

/// The match columns the listing returns.
pub struct PartialMatch {
    pub id: i32,
    pub gameweek: i32,
    pub status: MatchStatus,
}

/// The user columns the listing returns for each joined player.
pub struct PlayerOnMatch {
    pub id: Option<i32>,
    pub fpl_id: Option<i32>,
    pub name: Option<String>,
    pub first_name: Option<String>,
    pub last_name: Option<String>,
}

/// One listing row: the match joined with its owner and, where set, its
/// opponent and winner.
pub struct MatchWithOwnerOpponentAndWinner {
    pub details: PartialMatch,
    pub owner: PlayerOnMatch,
    pub opponent: Option<PlayerOnMatch>,
    pub winner: Option<PlayerOnMatch>,
}

/// Whether a match passes the listing's filters.
pub open spec fn match_passes(p: FindMatchesParams, m: Match) -> bool {
    &&& m.status == p.status
    &&& match p.created_by {
        Some(id) => m.owner_id == id,
        None => true,
    }
    &&& match p.joined_by_or_created {
        Some(id) => m.opponent_id == Some(id) || m.owner_id == id,
        None => true,
    }
    &&& match p.exclude_created_by {
        Some(id) => m.owner_id != id,
        None => true,
    }
    &&& match p.season {
        Some(s) => m.season@ == s@,
        None => true,
    }
}

/// The matches passing the filters, in table order (which the store keeps
/// ordered by id).
pub open spec fn filtered_matches(p: FindMatchesParams, matches: Seq<Match>) -> Seq<Match>
    decreases matches.len(),
{
    if matches.len() == 0 {
        Seq::empty()
    } else {
        let rest = filtered_matches(p, matches.drop_last());
        if match_passes(p, matches.last()) {
            rest.push(matches.last())
        } else {
            rest
        }
    }
}

/// The joined player columns for a looked-up user; a missing row joins as
/// all-empty columns, as an outer join does.
pub open spec fn player_of(u: Option<User>) -> PlayerOnMatch {
    match u {
        Some(user) => PlayerOnMatch {
            id: Some(user.id),
            fpl_id: user.fpl_id,
            name: user.name,
            first_name: user.player_first_name,
            last_name: user.player_last_name,
        },
        None => PlayerOnMatch {
            id: None,
            fpl_id: None,
            name: None,
            first_name: None,
            last_name: None,
        },
    }
}

/// One listing row as a function of the match and the user table.
pub open spec fn joined_of(users: Seq<User>, m: Match) -> MatchWithOwnerOpponentAndWinner {
    MatchWithOwnerOpponentAndWinner {
        details: PartialMatch { id: m.id, gameweek: m.gameweek, status: m.status },
        owner: player_of(user_with_id(users, m.owner_id)),
        opponent: match m.opponent_id {
            Some(oid) => Some(player_of(user_with_id(users, oid))),
            None => None,
        },
        winner: match m.winner_id {
            Some(wid) => Some(player_of(user_with_id(users, wid))),
            None => None,
        },
    }
}

/// How many rows the requested page shows of a filtered total.
pub open spec fn page_len(filtered_len: int, offset: int, take: int) -> int {
    if offset >= filtered_len {
        0
    } else if filtered_len - offset < take {
        filtered_len - offset
    } else {
        take
    }
}

/// The joined player columns for one looked-up user id.
fn join_player(store: &Store, id: i32) -> (r: PlayerOnMatch)
    ensures
        r == player_of(user_with_id(store.users@, id)),
{
    match find_by_id(store, id) {
        Some(u) => {
            let r = PlayerOnMatch {
                id: Some(u.id),
                fpl_id: u.fpl_id,
                name: match &u.name {
                    Some(s) => Some(s.clone()),
                    None => None,
                },
                first_name: match &u.player_first_name {
                    Some(s) => Some(s.clone()),
                    None => None,
                },
                last_name: match &u.player_last_name {
                    Some(s) => Some(s.clone()),
                    None => None,
                },
            };
            proof {
                assert(r =~= player_of(user_with_id(store.users@, id)));
            }
            r
        },
        None => PlayerOnMatch { id: None, fpl_id: None, name: None, first_name: None, last_name: None },
    }
}

/// One listing row for a match, joining its players from the user table.
fn join_match(store: &Store, m: &Match) -> (r: MatchWithOwnerOpponentAndWinner)
    ensures
        r == joined_of(store.users@, *m),
{
    let r = MatchWithOwnerOpponentAndWinner {
        details: PartialMatch { id: m.id, gameweek: m.gameweek, status: m.status },
        owner: join_player(store, m.owner_id),
        opponent: match m.opponent_id {
            Some(oid) => Some(join_player(store, oid)),
            None => None,
        },
        winner: match m.winner_id {
            Some(wid) => Some(join_player(store, wid)),
            None => None,
        },
    };
    proof {
        assert(r =~= joined_of(store.users@, *m));
    }
    r
}

/// Whether a match passes the filters, decided in executable code.
fn match_passes_exec(params: &FindMatchesParams, m: &Match) -> (b: bool)
    ensures
        b == match_passes(*params, *m),
{
    let status_ok = m.status == params.status;
    let created_ok = match params.created_by {
        Some(id) => m.owner_id == id,
        None => true,
    };
    let joined_ok = match params.joined_by_or_created {
        Some(id) => match m.opponent_id {
            Some(o) => o == id || m.owner_id == id,
            None => m.owner_id == id,
        },
        None => true,
    };
    let exclude_ok = match params.exclude_created_by {
        Some(id) => m.owner_id != id,
        None => true,
    };
    let season_ok = match &params.season {
        Some(s) => m.season == *s,
        None => true,
    };
    status_ok && created_ok && joined_ok && exclude_ok && season_ok
}

/// The match listing: the requested page of the filtered, id-ordered,
/// player-joined matches, together with the total number of matches the
/// filters pass (for pagination).
pub fn find_matches(store: &Store, params: FindMatchesParams) -> (r: (
    Vec<MatchWithOwnerOpponentAndWinner>,
    u64,
))
    requires
        store.wf(),
        params.page >= 1,
        params.page * params.take <= u64::MAX,
    ensures
        r.1 as int == filtered_matches(params, store.matches@).len(),
        r.0@.len() == page_len(
            filtered_matches(params, store.matches@).len() as int,
            (params.page - 1) * params.take,
            params.take as int,
        ),
        forall|j: int|
            0 <= j < r.0@.len() ==> r.0@[j] == joined_of(
                store.users@,
                filtered_matches(params, store.matches@)[(params.page - 1) * params.take + j],
            ),
{
    proof {
        assert((params.page - 1) * params.take <= params.page * params.take)
            by (nonlinear_arith)
            requires
                params.page >= 1,
                params.take >= 0,
        ;
    }
    let offset: u64 = (params.page - 1) * params.take;
    let take = params.take;
    let n = store.matches.len();
    let mut nodes: Vec<MatchWithOwnerOpponentAndWinner> = Vec::new();
    let mut count: u64 = 0;
    let mut i: usize = 0;
    while i < n
        invariant
            i <= n,
            n == store.matches@.len(),
            store.wf(),
            count as int == filtered_matches(params, store.matches@.take(i as int)).len(),
            count <= i,
            nodes@.len() == page_len(count as int, offset as int, take as int),
            forall|j: int|
                0 <= j < nodes@.len() ==> nodes@[j] == joined_of(
                    store.users@,
                    filtered_matches(params, store.matches@.take(i as int))[offset + j],
                ),
        decreases n - i,
    {
        let ghost fi = filtered_matches(params, store.matches@.take(i as int));
        proof {
            assert(store.matches@.take(i as int + 1).drop_last() =~= store.matches@.take(i as int));
            assert(store.matches@.take(i as int + 1).last() == store.matches@[i as int]);
        }
        let m = &store.matches[i];
        if match_passes_exec(&params, m) {
            proof {
                assert(filtered_matches(params, store.matches@.take(i as int + 1)) == fi.push(
                    store.matches@[i as int],
                ));
            }
            if count >= offset && count - offset < take {
                nodes.push(join_match(store, m));
                proof {
                    assert(fi.push(store.matches@[i as int])[offset + (count - offset)]
                        == store.matches@[i as int]);
                }
            }
            count = count + 1;
        }
        i += 1;
    }
    proof {
        assert(store.matches@.take(n as int) =~= store.matches@);
    }
    (nodes, count)
}

} // verus!
