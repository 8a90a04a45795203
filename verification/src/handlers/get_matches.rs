//! Listing matches: validate the query, turn the caller's listing option
//! into the concrete filters, and run the match listing.

use vstd::prelude::*;

use crate::matches::FindMatchesParams;
use crate::matches::MatchWithOwnerOpponentAndWinner;
use crate::matches::filtered_matches;
use crate::matches::find_matches;
use crate::matches::joined_of;
use crate::matches::page_len;
use crate::responses::PaginationResponse;
use crate::store::MatchStatus;
use crate::store::Store;

verus! {

/// Which slice of the match table the caller asks for.
pub enum FindMatchesOption {
    /// Matches the caller created.
    MyMatches,
    /// Matches the caller created or joined.
    MyMatchesAndMyJoinedMatches,
    /// Open matches of others, waiting for an opponent.
    FlashMatch,
}

/// The query string of the listing endpoint.
pub struct QueryParams {
    pub status: MatchStatus,
    pub page: u64,
    pub take: u64,
    pub option: FindMatchesOption,
    pub season: Option<String>,
}

/// A decimal digit.
pub open spec fn is_digit(c: char) -> bool {
    '0' <= c && c <= '9'
}

/// The season tag's shape: four digits, a dash, four digits.
pub open spec fn season_format(s: Seq<char>) -> bool {
    &&& s.len() == 9
    &&& s[4] == '-'
    &&& forall|i: int| 0 <= i < 4 ==> is_digit(#[trigger] s[i])
    &&& forall|i: int| 5 <= i < 9 ==> is_digit(#[trigger] s[i])
}

/// Decide [`season_format`].
pub fn is_valid_season(s: &str) -> (b: bool)
    ensures
        b == season_format(s@),
{
    let n = s.unicode_len();
    if n != 9 {
        return false;
    }
    if s.get_char(4) != '-' {
        return false;
    }
    let mut i: usize = 0;
    while i < 4
        invariant
            i <= 4,
            s@.len() == 9,
            forall|k: int| 0 <= k < i ==> is_digit(#[trigger] s@[k]),
        decreases 4 - i,
    {
        let c = s.get_char(i);
        if !('0' <= c && c <= '9') {
            return false;
        }
        i += 1;
    }
    let mut j: usize = 5;
    while j < 9
        invariant
            5 <= j <= 9,
            s@.len() == 9,
            forall|k: int| 0 <= k < 4 ==> is_digit(#[trigger] s@[k]),
            forall|k: int| 5 <= k < j ==> is_digit(#[trigger] s@[k]),
        decreases 9 - j,
    {
        let c = s.get_char(j);
        if !('0' <= c && c <= '9') {
            return false;
        }
        j += 1;
    }
    true
}

impl QueryParams {
    /// The query's validation rules: a positive page, a page size between
    /// one and three hundred, and a well-shaped season tag where one is
    /// given.
    pub open spec fn valid(&self) -> bool {
        &&& self.page >= 1
        &&& 1 <= self.take <= 300
        &&& match self.season {
            Some(s) => season_format(s@),
            None => true,
        }
    }

    /// Decide the validation rules.
    pub fn validate(&self) -> (b: bool)
        ensures
            b == self.valid(),
    {
        let season_ok = match &self.season {
            Some(s) => is_valid_season(s.as_str()),
            None => true,
        };
        self.page >= 1 && 1 <= self.take && self.take <= 300 && season_ok
    }
}

/// The filters a listing option stands for: flash matches are always the
/// waiting ones of other creators; the other options filter by the chosen
/// status and the caller's role.
pub open spec fn params_of(query: QueryParams, user_id: i32) -> FindMatchesParams {
    match query.option {
        FindMatchesOption::FlashMatch => FindMatchesParams {
            take: query.take,
            page: query.page,
            created_by: None,
            joined_by_or_created: None,
            exclude_created_by: Some(user_id),
            status: MatchStatus::Next,
            season: query.season,
        },
        FindMatchesOption::MyMatches => FindMatchesParams {
            take: query.take,
            page: query.page,
            created_by: Some(user_id),
            joined_by_or_created: None,
            exclude_created_by: None,
            status: query.status,
            season: query.season,
        },
        FindMatchesOption::MyMatchesAndMyJoinedMatches => FindMatchesParams {
            take: query.take,
            page: query.page,
            created_by: None,
            joined_by_or_created: Some(user_id),
            exclude_created_by: None,
            status: query.status,
            season: query.season,
        },
    }
}

/// The handler: the requested page of the caller's chosen slice, with the
/// page number echoed and the unpaged total alongside.
pub fn handler(store: &Store, user_id: i32, query: QueryParams) -> (r: PaginationResponse<
    MatchWithOwnerOpponentAndWinner,
>)
    requires
        store.wf(),
        query.valid(),
        query.page * query.take <= u64::MAX,
    ensures
        r.page == query.page,
        r.total as int == filtered_matches(params_of(query, user_id), store.matches@).len(),
        r.nodes@.len() == page_len(
            filtered_matches(params_of(query, user_id), store.matches@).len() as int,
            (query.page - 1) * query.take,
            query.take as int,
        ),
        forall|j: int|
            0 <= j < r.nodes@.len() ==> r.nodes@[j] == joined_of(
                store.users@,
                filtered_matches(params_of(query, user_id), store.matches@)[(query.page - 1)
                    * query.take + j],
            ),
{
    let page = query.page;
    let mut find_params = FindMatchesParams {
        take: query.take,
        page: query.page,
        created_by: None,
        joined_by_or_created: None,
        exclude_created_by: None,
        status: query.status,
        season: query.season,
    };
    match query.option {
        FindMatchesOption::FlashMatch => {
            find_params.status = MatchStatus::Next;
            find_params.exclude_created_by = Some(user_id);
        },
        FindMatchesOption::MyMatches => {
            find_params.created_by = Some(user_id);
        },
        FindMatchesOption::MyMatchesAndMyJoinedMatches => {
            find_params.joined_by_or_created = Some(user_id);
        },
    }
    proof {
        assert(find_params =~= params_of(query, user_id));
    }
    let (nodes, total) = find_matches(store, find_params);
    PaginationResponse { nodes, page, total }
}

} // verus!
