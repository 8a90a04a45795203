//! The engine's data model: gameweek rows, matches, users and ledger entries,
//! held together in a [`Store`] with its well-formedness invariant.
//!
//! The relational tables of the running system are modelled as vectors of
//! plain rows. Timestamps are epoch seconds, JSON metadata is modelled by the
//! fields the engine actually writes, and row identifiers are assigned from
//! per-table counters, mirroring serial primary keys.

use vstd::prelude::*;

verus! {

/// Lifecycle state of a match; it only ever advances (`Next` to `Live` to
/// `Finished`).
#[derive(Clone, Copy, Debug, PartialEq, Eq, Structural)]
pub enum MatchStatus {
    Next,
    Live,
    Finished,
}

impl Default for MatchStatus {
    /// A freshly created match waits for its gameweek.
    fn default() -> (r: Self)
        ensures
            r == MatchStatus::Next,
    {
        MatchStatus::Next
    }
}

/// Direction of a currency movement recorded in the ledger.
#[derive(Clone, Copy, Debug, PartialEq, Eq, Structural)]
pub enum TransactionFlag {
    Up,
    Down,
}

/// What kind of event a ledger entry records.
#[derive(Clone, Copy, Debug, PartialEq, Eq, Structural)]
pub enum TransactionType {
    CreateMatch,
}

/// Chip usage rule selected for a match.
#[derive(Clone, Copy, Debug, PartialEq, Eq, Structural)]
pub enum ChipRule {
    Allowed,
    NotAllowed,
}

/// Transfer rule selected for a match.
#[derive(Clone, Copy, Debug, PartialEq, Eq, Structural)]
pub enum TransferRule {
    Allowed,
    NotAllowed,
}

/// One gameweek of the season, keyed by its gameweek number.
#[verifier::ext_equal]
pub struct EventStatus {
    /// Gameweek number; the primary key, immutable once the row exists.
    pub gameweek: i32,
    pub name: String,
    pub average_entry_score: i32,
    pub data_checked: bool,
    /// Deadline as epoch seconds, parsed from the feed's RFC 3339 text.
    pub deadline_time: i64,
    /// The feed's own redundant epoch-seconds encoding of the deadline.
    pub deadline_time_epoch: i32,
    pub finished: bool,
    pub is_current: bool,
    pub is_next: bool,
    pub is_previous: bool,
    pub highest_scoring_entry: i32,
}

/// A single wager instance.
#[verifier::ext_equal]
pub struct Match {
    pub id: i32,
    pub season: String,
    /// Creation instant, epoch seconds.
    pub created_date: i64,
    /// Instant an opponent joined, if one has.
    pub matched_at: Option<i64>,
    /// Stake per side, in d_coin; always positive.
    pub bet_amount: i32,
    pub owner_id: i32,
    pub opponent_id: Option<i32>,
    pub is_draw: bool,
    pub is_matched: bool,
    pub owner_point: i32,
    pub opponent_point: i32,
    pub winner_id: Option<i32>,
    /// The gameweek this match is played in; immutable once created.
    pub gameweek: i32,
    pub transfer_rule: TransferRule,
    pub chip_rule: ChipRule,
    pub status: MatchStatus,
    pub is_private: bool,
}

/// An immutable ledger entry auditing one currency movement.
#[verifier::ext_equal]
pub struct Transaction {
    pub id: i32,
    /// Creation instant, epoch seconds.
    pub created_date: i64,
    pub owner_id: i32,
    pub kind: TransactionType,
    /// Magnitude of the movement; its sign is carried by `flag`.
    pub d_coin: i32,
    pub message: Option<String>,
    /// The metadata the engine writes with a match-creation entry.
    pub quantity: u32,
    pub on_gameweek: i32,
    pub flag: TransactionFlag,
}

impl Transaction {
    /// The signed currency delta this entry records.
    pub open spec fn delta(&self) -> int {
        match self.flag {
            TransactionFlag::Up => self.d_coin as int,
            TransactionFlag::Down => -(self.d_coin as int),
        }
    }
}

/// A user account owning a d_coin balance.
#[verifier::ext_equal]
pub struct User {
    pub id: i32,
    pub fpl_id: Option<i32>,
    pub active: bool,
    /// Balance in d_coin; mutated only through ledger-backed operations.
    pub d_coin: i32,
    pub name: Option<String>,
    pub player_first_name: Option<String>,
    pub player_last_name: Option<String>,
    pub email: String,
    pub google_id: Option<String>,
    pub facebook_id: Option<String>,
}

/// The whole of the engine's storage as one plain value.
#[verifier::ext_equal]
pub struct Store {
    pub events: Vec<EventStatus>,
    pub matches: Vec<Match>,
    pub users: Vec<User>,
    pub transactions: Vec<Transaction>,
    /// Next serial id for a match row.
    pub next_match_id: i32,
    /// Next serial id for a ledger row.
    pub next_transaction_id: i32,
    /// Next serial id for a user row.
    pub next_user_id: i32,
}

/// The store's mathematical value: each table as a sequence, each counter as
/// itself. Job-level specifications are functions on this view.
#[verifier::ext_equal]
pub ghost struct StoreView {
    pub events: Seq<EventStatus>,
    pub matches: Seq<Match>,
    pub users: Seq<User>,
    pub transactions: Seq<Transaction>,
    pub next_match_id: i32,
    pub next_transaction_id: i32,
    pub next_user_id: i32,
}

impl View for Store {
    type V = StoreView;

    open spec fn view(&self) -> StoreView {
        StoreView {
            events: self.events@,
            matches: self.matches@,
            users: self.users@,
            transactions: self.transactions@,
            next_match_id: self.next_match_id,
            next_transaction_id: self.next_transaction_id,
            next_user_id: self.next_user_id,
        }
    }
}

/// Gameweek numbers are unique: upsert keys the table by them.
pub open spec fn events_unique(events: Seq<EventStatus>) -> bool {
    forall|i: int, j: int|
        0 <= i < events.len() && 0 <= j < events.len() && i != j ==> events[i].gameweek
            != events[j].gameweek
}

/// Match ids strictly increase with position, so they are unique and the
/// table is ordered by id, as the queries expect.
pub open spec fn matches_ordered(matches: Seq<Match>) -> bool {
    forall|i: int, j: int| 0 <= i < j < matches.len() ==> matches[i].id < matches[j].id
}

/// User ids are unique.
pub open spec fn users_unique(users: Seq<User>) -> bool {
    forall|i: int, j: int|
        0 <= i < users.len() && 0 <= j < users.len() && i != j ==> users[i].id != users[j].id
}

/// Ledger ids strictly increase with position.
pub open spec fn transactions_ordered(transactions: Seq<Transaction>) -> bool {
    forall|i: int, j: int|
        0 <= i < j < transactions.len() ==> transactions[i].id < transactions[j].id
}

impl Store {
    /// Well-formedness: every table keeps unique keys, serial tables stay
    /// ordered, and the id counters stay ahead of every row.
    pub open spec fn wf(&self) -> bool {
        &&& self.next_match_id >= 1
        &&& self.next_transaction_id >= 1
        &&& self.next_user_id >= 1
        &&& events_unique(self.events@)
        &&& matches_ordered(self.matches@)
        &&& users_unique(self.users@)
        &&& transactions_ordered(self.transactions@)
        &&& forall|i: int|
            0 <= i < self.matches@.len() ==> self.matches@[i].id < self.next_match_id
        &&& forall|i: int|
            0 <= i < self.transactions@.len() ==> self.transactions@[i].id
                < self.next_transaction_id
        &&& forall|i: int| 0 <= i < self.users@.len() ==> self.users@[i].id < self.next_user_id
    }

    /// An empty store, as a freshly provisioned database.
    pub fn new() -> (s: Store)
        ensures
            s.events@ == Seq::<EventStatus>::empty(),
            s.matches@ == Seq::<Match>::empty(),
            s.users@ == Seq::<User>::empty(),
            s.transactions@ == Seq::<Transaction>::empty(),
            s.next_match_id == 1,
            s.next_transaction_id == 1,
            s.next_user_id == 1,
            s.wf(),
    {
        Store {
            events: Vec::new(),
            matches: Vec::new(),
            users: Vec::new(),
            transactions: Vec::new(),
            next_match_id: 1,
            next_transaction_id: 1,
            next_user_id: 1,
        }
    }
}

impl Default for Store {
    /// The default shared context is an empty store.
    fn default() -> (s: Store)
        ensures
            s.events@ == Seq::<EventStatus>::empty(),
            s.matches@ == Seq::<Match>::empty(),
            s.users@ == Seq::<User>::empty(),
            s.transactions@ == Seq::<Transaction>::empty(),
            s.next_match_id == 1,
            s.next_transaction_id == 1,
            s.next_user_id == 1,
            s.wf(),
    {
        Store::new()
    }
}

} // verus!
