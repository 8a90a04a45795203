//! Records received from the external collaborators: the fantasy feed's
//! bootstrap payload and entry records, and the identity providers'
//! authorization responses. Fetching them is I/O and happens outside the
//! library; the records themselves are plain data.

use vstd::prelude::*;

verus! {

/// One gameweek record as the external feed reports it.
#[verifier::ext_equal]
pub struct Event {
    pub average_entry_score: i32,
    pub data_checked: bool,
    /// Deadline as RFC 3339 text.
    pub deadline_time: String,
    pub deadline_time_epoch: i32,
    pub deadline_time_game_offset: i32,
    pub finished: bool,
    pub highest_score: Option<i32>,
    pub highest_scoring_entry: Option<i32>,
    /// The gameweek number.
    pub id: i32,
    pub is_current: bool,
    pub is_next: bool,
    pub is_previous: bool,
    pub most_captained: Option<i32>,
    pub most_selected: Option<i32>,
    pub most_transferred_in: Option<i32>,
    pub most_vice_captained: Option<i32>,
    pub name: String,
    pub top_element: Option<i32>,
    pub transfers_made: i32,
    pub cup_leagues_created: bool,
    pub h2h_ko_matches_created: bool,
}

/// The feed's bootstrap payload: the season's gameweek records.
pub struct Bootstrap {
    pub events: Vec<Event>,
}

/// A manager entry as the external feed reports it.
pub struct Entry {
    pub id: i32,
    pub started_event: i32,
    pub favourite_team: i32,
    pub player_region_id: i32,
    pub last_deadline_total_transfers: i32,
    pub joined_time: String,
    pub player_first_name: String,
    pub player_last_name: String,
    pub player_region_name: String,
    pub player_region_iso_code_short: String,
    pub name: String,
    pub player_region_iso_code_long: String,
    pub name_change_blocked: bool,
    pub summary_overall_points: Option<i32>,
    pub summary_overall_rank: Option<i32>,
    pub summary_event_points: Option<i32>,
    pub summary_event_rank: Option<i32>,
    pub current_event: Option<i32>,
    pub last_deadline_bank: Option<i32>,
    pub last_deadline_value: Option<i32>,
    pub kit: Option<String>,
}

/// What the identity check against the Facebook graph returns.
pub struct FacebookAuthorizeResponse {
    pub email: String,
    pub id: String,
}

/// What the identity check against Google's userinfo endpoint returns.
pub struct GoogleAuthorizeResponse {
    pub email: String,
    pub id: String,
}

/// Why a feed fetch produced no batch this tick; the job skips the tick and
/// the next one retries from scratch.
pub enum FeedError {
    /// The network round trip failed.
    Fetch(String),
    /// The response could not be decoded.
    Parse(String),
}

} // verus!
