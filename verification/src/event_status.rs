//! Event ingestion: reconciling the external gameweek feed into the store by
//! idempotent upsert, and the point queries the lifecycle driver reads.
//!
//! The upsert is specified by [`upsert_all`], a fold of single-row upserts
//! keyed by gameweek number. The module proves the two laws the rest of the
//! system leans on: re-ingesting a batch is a no-op, and a full feed batch
//! carrying at most one row with a given flag leaves at most one row with
//! that flag in the store.

use vstd::prelude::*;

use crate::clock::parse_rfc3339_epoch;
use crate::clock::rfc3339_epoch_of;
use crate::services::Event;
use crate::store::EventStatus;
use crate::store::Store;
use crate::store::events_unique;

verus! {

/// The row that ingesting a feed record writes: the gameweek number is the
/// key, every other column is overwritten from the record.
pub open spec fn row_of_event(e: Event) -> EventStatus {
    EventStatus {
        gameweek: e.id,
        name: e.name,
        average_entry_score: e.average_entry_score,
        data_checked: e.data_checked,
        deadline_time: rfc3339_epoch_of(e.deadline_time@),
        deadline_time_epoch: e.deadline_time_epoch,
        finished: e.finished,
        is_current: e.is_current,
        is_next: e.is_next,
        is_previous: e.is_previous,
        highest_scoring_entry: match e.highest_scoring_entry {
            Some(h) => h,
            None => 0,
        },
    }
}

/// Whether some row carries this gameweek number.
pub open spec fn has_gameweek(rows: Seq<EventStatus>, gw: i32) -> bool {
    exists|i: int| 0 <= i < rows.len() && rows[i].gameweek == gw
}

/// The first position carrying this gameweek number.
pub open spec fn index_of_gameweek(rows: Seq<EventStatus>, gw: i32) -> int
    decreases rows.len(),
{
    if rows.len() == 0 {
        0
    } else if rows[0].gameweek == gw {
        0
    } else {
        1 + index_of_gameweek(rows.drop_first(), gw)
    }
}

/// Upsert of one row: overwrite the row with the same gameweek number, or
/// append when there is none.
pub open spec fn upsert_one(rows: Seq<EventStatus>, row: EventStatus) -> Seq<EventStatus> {
    if has_gameweek(rows, row.gameweek) {
        rows.update(index_of_gameweek(rows, row.gameweek), row)
    } else {
        rows.push(row)
    }
}

/// Upsert of a whole feed batch, record by record in feed order.
pub open spec fn upsert_all(rows: Seq<EventStatus>, events: Seq<Event>) -> Seq<EventStatus>
    decreases events.len(),
{
    if events.len() == 0 {
        rows
    } else {
        upsert_all(upsert_one(rows, row_of_event(events[0])), events.drop_first())
    }
}

/// The batch carries no two records for the same gameweek, as the feed
/// reports each gameweek once.
pub open spec fn events_ids_unique(events: Seq<Event>) -> bool {
    forall|i: int, j: int|
        0 <= i < events.len() && 0 <= j < events.len() && i != j ==> events[i].id != events[j].id
}

proof fn lemma_index_of_gameweek(rows: Seq<EventStatus>, gw: i32)
    requires
        has_gameweek(rows, gw),
    ensures
        0 <= index_of_gameweek(rows, gw) < rows.len(),
        rows[index_of_gameweek(rows, gw)].gameweek == gw,
        forall|j: int| 0 <= j < index_of_gameweek(rows, gw) ==> rows[j].gameweek != gw,
    decreases rows.len(),
{
    if rows[0].gameweek == gw {
    } else {
        let witness = choose|i: int| 0 <= i < rows.len() && rows[i].gameweek == gw;
        assert(rows.drop_first()[witness - 1] == rows[witness]);
        assert(has_gameweek(rows.drop_first(), gw));
        lemma_index_of_gameweek(rows.drop_first(), gw);
        assert(forall|j: int|
            0 <= j < index_of_gameweek(rows, gw) ==> rows[j].gameweek != gw) by {
            assert(forall|j: int|
                1 <= j < index_of_gameweek(rows, gw) ==> rows[j]
                    == rows.drop_first()[j - 1] && rows.drop_first()[j - 1].gameweek != gw);
        }
    }
}

proof fn lemma_upsert_one_unique(rows: Seq<EventStatus>, row: EventStatus)
    requires
        events_unique(rows),
    ensures
        events_unique(upsert_one(rows, row)),
        upsert_one(rows, row).len() >= rows.len(),
        forall|i: int|
            0 <= i < rows.len() ==> upsert_one(rows, row)[i].gameweek == rows[i].gameweek,
        exists|i: int|
            0 <= i < upsert_one(rows, row).len() && upsert_one(rows, row)[i] == row,
{
    if has_gameweek(rows, row.gameweek) {
        lemma_index_of_gameweek(rows, row.gameweek);
        let k = index_of_gameweek(rows, row.gameweek);
        assert(upsert_one(rows, row)[k] == row);
    } else {
        assert(upsert_one(rows, row)[rows.len() as int] == row);
    }
}

proof fn lemma_upsert_all_unique(rows: Seq<EventStatus>, events: Seq<Event>)
    requires
        events_unique(rows),
    ensures
        events_unique(upsert_all(rows, events)),
        upsert_all(rows, events).len() >= rows.len(),
        forall|i: int|
            0 <= i < rows.len() ==> upsert_all(rows, events)[i].gameweek == rows[i].gameweek,
    decreases events.len(),
{
    if events.len() > 0 {
        lemma_upsert_one_unique(rows, row_of_event(events[0]));
        lemma_upsert_all_unique(upsert_one(rows, row_of_event(events[0])), events.drop_first());
    }
}

/// A row whose gameweek no batch record carries keeps its value and place.
proof fn lemma_upsert_all_untouched(rows: Seq<EventStatus>, events: Seq<Event>, i: int)
    requires
        events_unique(rows),
        0 <= i < rows.len(),
        forall|k: int| 0 <= k < events.len() ==> events[k].id != rows[i].gameweek,
    ensures
        upsert_all(rows, events)[i] == rows[i],
    decreases events.len(),
{
    if events.len() > 0 {
        let row = row_of_event(events[0]);
        let r1 = upsert_one(rows, row);
        assert(row.gameweek == events[0].id);
        if has_gameweek(rows, row.gameweek) {
            lemma_index_of_gameweek(rows, row.gameweek);
            assert(r1[i] == rows[i]);
        } else {
            assert(r1[i] == rows[i]);
        }
        lemma_upsert_one_unique(rows, row);
        lemma_upsert_all_untouched(r1, events.drop_first(), i);
    }
}

/// Upserting a row the table already holds, value and all, changes nothing.
proof fn lemma_upsert_one_noop(rows: Seq<EventStatus>, i: int)
    requires
        events_unique(rows),
        0 <= i < rows.len(),
    ensures
        upsert_one(rows, rows[i]) == rows,
{
    let row = rows[i];
    assert(has_gameweek(rows, row.gameweek));
    lemma_index_of_gameweek(rows, row.gameweek);
    let k = index_of_gameweek(rows, row.gameweek);
    assert(k == i);
    assert(rows.update(i, rows[i]) =~= rows);
}

/// The batch record whose gameweek matches a stored row determines that
/// row's final value.
proof fn lemma_upsert_all_targets(rows: Seq<EventStatus>, events: Seq<Event>, i: int, k: int)
    requires
        events_unique(rows),
        events_ids_unique(events),
        0 <= i < rows.len(),
        0 <= k < events.len(),
        events[k].id == rows[i].gameweek,
    ensures
        upsert_all(rows, events)[i] == row_of_event(events[k]),
    decreases events.len(),
{
    let row = row_of_event(events[0]);
    let r1 = upsert_one(rows, row);
    lemma_upsert_one_unique(rows, row);
    if has_gameweek(rows, row.gameweek) {
        lemma_index_of_gameweek(rows, row.gameweek);
    }
    if k == 0 {
        assert(has_gameweek(rows, row.gameweek));
        lemma_index_of_gameweek(rows, row.gameweek);
        let idx = index_of_gameweek(rows, row.gameweek);
        assert(idx == i);
        assert(r1[i] == row);
        assert(forall|k2: int|
            0 <= k2 < events.drop_first().len() ==> events.drop_first()[k2] == events[k2 + 1]
                && events[k2 + 1].id != events[0].id);
        assert(r1[i].gameweek == rows[i].gameweek);
        lemma_upsert_all_untouched(r1, events.drop_first(), i);
    } else {
        assert(events[0].id != events[k].id);
        assert(row.gameweek != rows[i].gameweek);
        assert(r1[i] == rows[i]);
        assert(r1[i].gameweek == rows[i].gameweek);
        assert(events.drop_first()[k - 1] == events[k]);
        lemma_upsert_all_targets(r1, events.drop_first(), i, k - 1);
    }
}

/// Every row of the result is either a batch record's row or an
/// already-stored row left in place.
proof fn lemma_upsert_all_origin(rows: Seq<EventStatus>, events: Seq<Event>, i: int)
    requires
        0 <= i < upsert_all(rows, events).len(),
    ensures
        (exists|k: int|
            0 <= k < events.len() && upsert_all(rows, events)[i] == row_of_event(events[k])) || (0
            <= i < rows.len() && upsert_all(rows, events)[i] == rows[i]),
    decreases events.len(),
{
    if events.len() > 0 {
        let row = row_of_event(events[0]);
        let r1 = upsert_one(rows, row);
        lemma_upsert_all_origin(r1, events.drop_first(), i);
        if exists|k: int|
            0 <= k < events.drop_first().len() && upsert_all(r1, events.drop_first())[i]
                == row_of_event(events.drop_first()[k]) {
            let k = choose|k: int|
                0 <= k < events.drop_first().len() && upsert_all(r1, events.drop_first())[i]
                    == row_of_event(events.drop_first()[k]);
            assert(events.drop_first()[k] == events[k + 1]);
        } else {
            assert(0 <= i < r1.len() && upsert_all(rows, events)[i] == r1[i]);
            if has_gameweek(rows, row.gameweek) {
                lemma_index_of_gameweek(rows, row.gameweek);
                if i == index_of_gameweek(rows, row.gameweek) {
                    assert(r1[i] == row_of_event(events[0]));
                } else {
                    assert(r1[i] == rows[i]);
                }
            } else {
                if i == rows.len() {
                    assert(r1[i] == row_of_event(events[0]));
                } else {
                    assert(r1[i] == rows[i]);
                }
            }
        }
    }
}

/// Idempotent ingestion: upserting the same batch a second time changes
/// nothing — the store has already converged.
pub proof fn lemma_update_events_idempotent(rows: Seq<EventStatus>, events: Seq<Event>)
    requires
        events_unique(rows),
        events_ids_unique(events),
    ensures
        upsert_all(upsert_all(rows, events), events) == upsert_all(rows, events),
    decreases events.len(),
{
    if events.len() > 0 {
        let e = events[0];
        let row = row_of_event(e);
        let rest = events.drop_first();
        let r1 = upsert_one(rows, row);
        lemma_upsert_one_unique(rows, row);
        let result = upsert_all(r1, rest);
        assert(upsert_all(rows, events) == result);
        // the batch's own row survives the rest of the pass untouched
        let i = choose|i: int| 0 <= i < r1.len() && r1[i] == row;
        assert(forall|k: int| 0 <= k < rest.len() ==> rest[k] == events[k + 1]);
        lemma_upsert_all_untouched(r1, rest, i);
        lemma_upsert_all_unique(r1, rest);
        assert(result[i] == row);
        lemma_upsert_one_noop(result, i);
        assert(upsert_one(result, row) == result);
        lemma_update_events_idempotent(r1, rest);
        assert(upsert_all(result, events) == upsert_all(upsert_one(result, row), rest));
    }
}

/// A gameweek no stored row carries, upserted by one batch record, ends up
/// present with that record's row.
proof fn lemma_upsert_all_inserts(rows: Seq<EventStatus>, events: Seq<Event>, k: int)
    requires
        events_unique(rows),
        events_ids_unique(events),
        0 <= k < events.len(),
        !has_gameweek(rows, events[k].id),
    ensures
        exists|i: int|
            0 <= i < upsert_all(rows, events).len() && upsert_all(rows, events)[i] == row_of_event(
                events[k],
            ),
    decreases events.len(),
{
    let row0 = row_of_event(events[0]);
    let r1 = upsert_one(rows, row0);
    lemma_upsert_one_unique(rows, row0);
    if k == 0 {
        let i0 = rows.len() as int;
        assert(r1[i0] == row0);
        assert(forall|k2: int|
            0 <= k2 < events.drop_first().len() ==> events.drop_first()[k2] == events[k2 + 1]
                && events[k2 + 1].id != events[0].id);
        lemma_upsert_all_untouched(r1, events.drop_first(), i0);
        lemma_upsert_all_unique(r1, events.drop_first());
        assert(upsert_all(rows, events) == upsert_all(r1, events.drop_first()));
        assert(0 <= i0 < upsert_all(rows, events).len());
        assert(upsert_all(rows, events)[i0] == row0);
    } else {
        // the first record touches a different gameweek, so the one in
        // question is still absent from the updated table
        assert(events[0].id != events[k].id);
        assert(!has_gameweek(r1, events[k].id)) by {
            if has_gameweek(rows, row0.gameweek) {
                lemma_index_of_gameweek(rows, row0.gameweek);
                assert(forall|i: int|
                    0 <= i < r1.len() ==> r1[i].gameweek == rows[i].gameweek);
            } else {
                assert(forall|i: int|
                    0 <= i < rows.len() ==> r1[i].gameweek == rows[i].gameweek);
                assert(r1[rows.len() as int].gameweek == events[0].id);
            }
        }
        assert(events.drop_first()[k - 1] == events[k]);
        lemma_upsert_all_inserts(r1, events.drop_first(), k - 1);
        assert(upsert_all(rows, events) == upsert_all(r1, events.drop_first()));
        let i = choose|i: int|
            0 <= i < upsert_all(r1, events.drop_first()).len() && upsert_all(
                r1,
                events.drop_first(),
            )[i] == row_of_event(events.drop_first()[k - 1]);
        assert(upsert_all(rows, events)[i] == row_of_event(events[k]));
    }
}

/// Re-ingestion overwrites: after ingesting a batch carrying one record per
/// gameweek, the table holds exactly one row for any batch record's
/// gameweek, and it is that record's row — so a record reporting
/// `is_current == false` overwrites a previously stored `true`, never adds
/// a second row.
pub proof fn lemma_update_events_overwrites(rows: Seq<EventStatus>, events: Seq<Event>, k: int)
    requires
        events_unique(rows),
        events_ids_unique(events),
        0 <= k < events.len(),
    ensures
        exists|i: int|
            0 <= i < upsert_all(rows, events).len() && upsert_all(rows, events)[i] == row_of_event(
                events[k],
            ),
        events_unique(upsert_all(rows, events)),
{
    lemma_upsert_all_unique(rows, events);
    if has_gameweek(rows, events[k].id) {
        let i = choose|i: int| 0 <= i < rows.len() && rows[i].gameweek == events[k].id;
        lemma_upsert_all_targets(rows, events, i, k);
        assert(upsert_all(rows, events)[i] == row_of_event(events[k]));
    } else {
        lemma_upsert_all_inserts(rows, events, k);
    }
}

/// At most one row of the table satisfies the predicate.
pub open spec fn at_most_one_row(
    rows: Seq<EventStatus>,
    p: spec_fn(EventStatus) -> bool,
) -> bool {
    forall|i: int, j: int|
        0 <= i < rows.len() && 0 <= j < rows.len() && p(rows[i]) && p(rows[j]) ==> i == j
}

/// At most one record of the batch writes a row satisfying the predicate.
pub open spec fn at_most_one_event(events: Seq<Event>, p: spec_fn(EventStatus) -> bool) -> bool {
    forall|i: int, j: int|
        0 <= i < events.len() && 0 <= j < events.len() && p(row_of_event(events[i])) && p(
            row_of_event(events[j]),
        ) ==> i == j
}

/// Flag uniqueness: when a batch covers every stored gameweek and itself
/// flags at most one record, ingesting it leaves at most one flagged row.
/// Instantiated with `is_current`, `is_next`, or `is_previous && finished`,
/// this is the store invariant the lifecycle driver relies on.
pub proof fn lemma_ingestion_flag_unique(
    rows: Seq<EventStatus>,
    events: Seq<Event>,
    p: spec_fn(EventStatus) -> bool,
)
    requires
        events_unique(rows),
        events_ids_unique(events),
        forall|i: int|
            0 <= i < rows.len() ==> exists|k: int|
                0 <= k < events.len() && events[k].id == #[trigger] rows[i].gameweek,
        at_most_one_event(events, p),
    ensures
        at_most_one_row(upsert_all(rows, events), p),
{
    let result = upsert_all(rows, events);
    lemma_upsert_all_unique(rows, events);
    assert forall|i: int| 0 <= i < result.len() && p(result[i]) implies exists|k: int|
        0 <= k < events.len() && result[i] == row_of_event(events[k]) by {
        if i < rows.len() {
            let k = choose|k: int| 0 <= k < events.len() && events[k].id == rows[i].gameweek;
            lemma_upsert_all_targets(rows, events, i, k);
        } else {
            lemma_upsert_all_origin(rows, events, i);
        }
    }
    assert forall|i: int, j: int|
        0 <= i < result.len() && 0 <= j < result.len() && p(result[i]) && p(
            result[j],
        ) implies i == j by {
        let ki = choose|k: int| 0 <= k < events.len() && result[i] == row_of_event(events[k]);
        let kj = choose|k: int| 0 <= k < events.len() && result[j] == row_of_event(events[k]);
        assert(ki == kj);
        assert(result[i].gameweek == result[j].gameweek);
    }
}

proof fn lemma_upsert_all_push(rows: Seq<EventStatus>, events: Seq<Event>, e: Event)
    ensures
        upsert_all(rows, events.push(e)) == upsert_one(upsert_all(rows, events), row_of_event(e)),
    decreases events.len(),
{
    if events.len() == 0 {
        assert(events.push(e)[0] == e);
        assert(events.push(e).drop_first() =~= events);
        assert(upsert_all(rows, events.push(e)) == upsert_all(
            upsert_one(rows, row_of_event(e)),
            events,
        ));
    } else {
        assert(events.push(e)[0] == events[0]);
        assert(events.push(e).drop_first() =~= events.drop_first().push(e));
        let r1 = upsert_one(rows, row_of_event(events[0]));
        assert(upsert_all(rows, events.push(e)) == upsert_all(r1, events.drop_first().push(e)));
        assert(upsert_all(rows, events) == upsert_all(r1, events.drop_first()));
        lemma_upsert_all_push(r1, events.drop_first(), e);
    }
}

/// Find the position of a gameweek's row, scanning in order.
fn find_event_index(events: &Vec<EventStatus>, gw: i32) -> (r: Option<usize>)
    ensures
        match r {
            Some(j) => j < events@.len() && events@[j as int].gameweek == gw && forall|k: int|
                0 <= k < j ==> events@[k].gameweek != gw,
            None => !has_gameweek(events@, gw),
        },
{
    let n = events.len();
    let mut i: usize = 0;
    while i < n
        invariant
            i <= n,
            n == events@.len(),
            forall|k: int| 0 <= k < i ==> events@[k].gameweek != gw,
        decreases n - i,
    {
        if events[i].gameweek == gw {
            return Some(i);
        }
        i += 1;
    }
    None
}

/// Ingest a feed batch: one upsert per record, keyed by gameweek number.
/// Inserts the gameweeks the store has never seen and overwrites every
/// mutable column of those it has; nothing else in the store moves.
pub fn update_events(store: &mut Store, events: &Vec<Event>)
    requires
        old(store).wf(),
    ensures
        final(store).events@ == upsert_all(old(store).events@, events@),
        final(store).matches == old(store).matches,
        final(store).users == old(store).users,
        final(store).transactions == old(store).transactions,
        final(store).next_match_id == old(store).next_match_id,
        final(store).next_transaction_id == old(store).next_transaction_id,
        final(store).next_user_id == old(store).next_user_id,
        final(store).wf(),
{
    let n = events.len();
    let mut i: usize = 0;
    while i < n
        invariant
            i <= n,
            n == events@.len(),
            old(store).wf(),
            store.events@ == upsert_all(old(store).events@, events@.take(i as int)),
            events_unique(store.events@),
            store.matches == old(store).matches,
            store.users == old(store).users,
            store.transactions == old(store).transactions,
            store.next_match_id == old(store).next_match_id,
            store.next_transaction_id == old(store).next_transaction_id,
            store.next_user_id == old(store).next_user_id,
        decreases n - i,
    {
        let e = &events[i];
        let deadline = parse_rfc3339_epoch(e.deadline_time.as_str());
        let row = EventStatus {
            gameweek: e.id,
            name: e.name.clone(),
            average_entry_score: e.average_entry_score,
            data_checked: e.data_checked,
            deadline_time: deadline,
            deadline_time_epoch: e.deadline_time_epoch,
            finished: e.finished,
            is_current: e.is_current,
            is_next: e.is_next,
            is_previous: e.is_previous,
            highest_scoring_entry: match e.highest_scoring_entry {
                Some(h) => h,
                None => 0,
            },
        };
        proof {
            assert(row =~= row_of_event(events@[i as int]));
        }
        let ghost rows_before = store.events@;
        match find_event_index(&store.events, e.id) {
            Some(j) => {
                store.events.set(j, row);
                proof {
                    assert(has_gameweek(rows_before, e.id));
                    lemma_index_of_gameweek(rows_before, e.id);
                    let idx = index_of_gameweek(rows_before, e.id);
                    assert(idx == j);
                    assert(store.events@ == upsert_one(rows_before, row_of_event(events@[i as int])));
                }
            },
            None => {
                store.events.push(row);
                proof {
                    assert(store.events@ == upsert_one(rows_before, row_of_event(events@[i as int])));
                }
            },
        }
        proof {
            lemma_upsert_one_unique(rows_before, row_of_event(events@[i as int]));
            assert(events@.take(i as int + 1) =~= events@.take(i as int).push(events@[i as int]));
            lemma_upsert_all_push(old(store).events@, events@.take(i as int), events@[i as int]);
        }
        i += 1;
    }
    proof {
        assert(events@.take(n as int) =~= events@);
    }
}

/// The first row of the table satisfying the predicate.
pub open spec fn first_where(
    rows: Seq<EventStatus>,
    p: spec_fn(EventStatus) -> bool,
) -> Option<EventStatus>
    decreases rows.len(),
{
    if rows.len() == 0 {
        None
    } else if p(rows[0]) {
        Some(rows[0])
    } else {
        first_where(rows.drop_first(), p)
    }
}

/// The test for the gameweek being played.
pub open spec fn current_pred() -> spec_fn(EventStatus) -> bool {
    |e: EventStatus| e.is_current
}

/// The test for the gameweek coming up.
pub open spec fn next_pred() -> spec_fn(EventStatus) -> bool {
    |e: EventStatus| e.is_next
}

/// The test for the settlement target: the previous gameweek, data final.
pub open spec fn finished_previous_pred() -> spec_fn(EventStatus) -> bool {
    |e: EventStatus| e.is_previous && e.finished
}

/// The gameweek the feed reports as the one being played.
pub open spec fn first_current(rows: Seq<EventStatus>) -> Option<EventStatus> {
    first_where(rows, current_pred())
}

/// The gameweek the feed reports as the one coming up.
pub open spec fn first_next(rows: Seq<EventStatus>) -> Option<EventStatus> {
    first_where(rows, next_pred())
}

/// The settlement target: the previous gameweek once its data is final.
pub open spec fn first_finished_previous(rows: Seq<EventStatus>) -> Option<EventStatus> {
    first_where(rows, finished_previous_pred())
}

pub proof fn lemma_first_where_at(
    rows: Seq<EventStatus>,
    p: spec_fn(EventStatus) -> bool,
    i: int,
)
    requires
        0 <= i < rows.len(),
        p(rows[i]),
        forall|j: int| 0 <= j < i ==> !p(rows[j]),
    ensures
        first_where(rows, p) == Some(rows[i]),
    decreases rows.len(),
{
    if i > 0 {
        assert(forall|j: int|
            0 <= j < i - 1 ==> rows.drop_first()[j] == rows[j + 1] && !p(rows[j + 1]));
        assert(rows.drop_first()[i - 1] == rows[i]);
        lemma_first_where_at(rows.drop_first(), p, i - 1);
    }
}

pub proof fn lemma_first_where_none(rows: Seq<EventStatus>, p: spec_fn(EventStatus) -> bool)
    requires
        forall|j: int| 0 <= j < rows.len() ==> !p(rows[j]),
    ensures
        first_where(rows, p) is None,
    decreases rows.len(),
{
    if rows.len() > 0 {
        assert(forall|j: int|
            0 <= j < rows.len() - 1 ==> rows.drop_first()[j] == rows[j + 1] && !p(rows[j + 1]));
        lemma_first_where_none(rows.drop_first(), p);
    }
}

/// The unique row flagged as the current gameweek, or none while the feed
/// has not reported one (a normal transient state, not an error).
pub fn find_current_event(store: &Store) -> (r: Option<&EventStatus>)
    ensures
        match r {
            Some(e) => first_current(store.events@) == Some(*e),
            None => first_current(store.events@) is None,
        },
{
    let n = store.events.len();
    let mut i: usize = 0;
    while i < n
        invariant
            i <= n,
            n == store.events@.len(),
            forall|k: int| 0 <= k < i ==> !store.events@[k].is_current,
        decreases n - i,
    {
        if store.events[i].is_current {
            proof {
                assert(current_pred()(store.events@[i as int]));
                lemma_first_where_at(store.events@, current_pred(), i as int);
            }
            return Some(&store.events[i]);
        }
        i += 1;
    }
    proof {
        assert(forall|k: int|
            0 <= k < store.events@.len() ==> !current_pred()(#[trigger] store.events@[k]));
        lemma_first_where_none(store.events@, current_pred());
    }
    None
}

/// The unique row flagged as the next gameweek, or none.
pub fn find_next_event(store: &Store) -> (r: Option<&EventStatus>)
    ensures
        match r {
            Some(e) => first_next(store.events@) == Some(*e),
            None => first_next(store.events@) is None,
        },
{
    let n = store.events.len();
    let mut i: usize = 0;
    while i < n
        invariant
            i <= n,
            n == store.events@.len(),
            forall|k: int| 0 <= k < i ==> !store.events@[k].is_next,
        decreases n - i,
    {
        if store.events[i].is_next {
            proof {
                assert(next_pred()(store.events@[i as int]));
                lemma_first_where_at(store.events@, next_pred(), i as int);
            }
            return Some(&store.events[i]);
        }
        i += 1;
    }
    proof {
        assert(forall|k: int|
            0 <= k < store.events@.len() ==> !next_pred()(#[trigger] store.events@[k]));
        lemma_first_where_none(store.events@, next_pred());
    }
    None
}

/// The row flagged previous whose data is final, or none.
pub fn find_finished_previous_event(store: &Store) -> (r: Option<&EventStatus>)
    ensures
        match r {
            Some(e) => first_finished_previous(store.events@) == Some(*e),
            None => first_finished_previous(store.events@) is None,
        },
{
    let n = store.events.len();
    let mut i: usize = 0;
    while i < n
        invariant
            i <= n,
            n == store.events@.len(),
            forall|k: int|
                0 <= k < i ==> !(store.events@[k].is_previous && store.events@[k].finished),
        decreases n - i,
    {
        if store.events[i].is_previous && store.events[i].finished {
            proof {
                assert(finished_previous_pred()(store.events@[i as int]));
                lemma_first_where_at(store.events@, finished_previous_pred(), i as int);
            }
            return Some(&store.events[i]);
        }
        i += 1;
    }
    proof {
        assert(forall|k: int|
            0 <= k < store.events@.len() ==> !finished_previous_pred()(
                #[trigger] store.events@[k],
            ));
        lemma_first_where_none(store.events@, finished_previous_pred());
    }
    None
}

} // verus!
