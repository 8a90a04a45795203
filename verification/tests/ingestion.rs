use gameweek_engine::event_status::find_current_event;
use gameweek_engine::event_status::find_finished_previous_event;
use gameweek_engine::event_status::find_next_event;
use gameweek_engine::event_status::update_events;
use gameweek_engine::services::Event;
use gameweek_engine::store::Store;

fn event(id: i32, is_current: bool, is_next: bool, is_previous: bool, finished: bool) -> Event {
    Event {
        average_entry_score: 50,
        data_checked: false,
        deadline_time: "1970-01-02T00:00:00+00:00".to_string(),
        deadline_time_epoch: 86400,
        deadline_time_game_offset: 0,
        finished,
        highest_score: Some(100),
        highest_scoring_entry: Some(7),
        id,
        is_current,
        is_next,
        is_previous,
        most_captained: None,
        most_selected: None,
        most_transferred_in: None,
        most_vice_captained: None,
        name: format!("Gameweek {}", id),
        top_element: None,
        transfers_made: 0,
        cup_leagues_created: false,
        h2h_ko_matches_created: false,
    }
}

#[test]
fn ingest_inserts_one_row_per_gameweek() {
    let mut store = Store::new();
    let batch = vec![event(1, false, true, false, false), event(2, false, false, false, false)];
    update_events(&mut store, &batch);
    assert_eq!(store.events.len(), 2);
    assert_eq!(store.events[0].gameweek, 1);
    assert_eq!(store.events[0].name, "Gameweek 1".to_string());
    assert_eq!(store.events[0].average_entry_score, 50);
    assert_eq!(store.events[0].highest_scoring_entry, 7);
    assert_eq!(store.events[0].deadline_time_epoch, 86400);
    assert_eq!(store.events[1].gameweek, 2);
}

#[test]
fn ingest_parses_rfc3339_deadlines() {
    let mut store = Store::new();
    update_events(&mut store, &vec![event(1, false, false, false, false)]);
    // one day past the epoch
    assert_eq!(store.events[0].deadline_time, 86400);

    let mut bad = event(2, false, false, false, false);
    bad.deadline_time = "not a timestamp".to_string();
    update_events(&mut store, &vec![bad]);
    // unparsable deadlines fall back to the epoch
    assert_eq!(store.events[1].deadline_time, 0);
}

#[test]
fn ingest_missing_highest_scoring_entry_defaults_to_zero() {
    let mut store = Store::new();
    let mut e = event(3, false, false, false, false);
    e.highest_scoring_entry = None;
    update_events(&mut store, &vec![e]);
    assert_eq!(store.events[0].highest_scoring_entry, 0);
}

#[test]
fn ingest_twice_is_idempotent() {
    let mut store = Store::new();
    let batch = vec![event(1, true, false, false, false), event(2, false, true, false, false)];
    update_events(&mut store, &batch);
    update_events(&mut store, &batch);
    assert_eq!(store.events.len(), 2);
    assert!(store.events[0].is_current);
    assert!(store.events[1].is_next);
}

#[test]
fn reingest_overwrites_mutable_fields() {
    let mut store = Store::new();
    update_events(&mut store, &vec![event(5, true, false, false, false)]);
    assert!(store.events[0].is_current);

    // the feed moves on: gameweek 5 is no longer current and is finished
    let mut later = event(5, false, false, true, true);
    later.average_entry_score = 61;
    later.name = "Gameweek 5 (final)".to_string();
    update_events(&mut store, &vec![later]);

    assert_eq!(store.events.len(), 1);
    assert!(!store.events[0].is_current);
    assert!(store.events[0].is_previous);
    assert!(store.events[0].finished);
    assert_eq!(store.events[0].average_entry_score, 61);
    assert_eq!(store.events[0].name, "Gameweek 5 (final)".to_string());
}

#[test]
fn full_feed_keeps_flags_unique() {
    let mut store = Store::new();
    update_events(
        &mut store,
        &vec![event(1, true, false, false, false), event(2, false, true, false, false)],
    );
    // next tick: the season advanced one gameweek
    update_events(
        &mut store,
        &vec![event(1, false, false, true, true), event(2, true, false, false, false)],
    );
    let current: Vec<i32> =
        store.events.iter().filter(|e| e.is_current).map(|e| e.gameweek).collect();
    assert_eq!(current, vec![2]);
    let next_count = store.events.iter().filter(|e| e.is_next).count();
    assert_eq!(next_count, 0);
}

#[test]
fn find_queries_return_the_flagged_rows() {
    let mut store = Store::new();
    assert!(find_current_event(&store).is_none());
    assert!(find_next_event(&store).is_none());
    assert!(find_finished_previous_event(&store).is_none());

    update_events(
        &mut store,
        &vec![
            event(4, false, false, true, true),
            event(5, true, false, false, false),
            event(6, false, true, false, false),
        ],
    );
    assert_eq!(find_current_event(&store).unwrap().gameweek, 5);
    assert_eq!(find_next_event(&store).unwrap().gameweek, 6);
    assert_eq!(find_finished_previous_event(&store).unwrap().gameweek, 4);
}

#[test]
fn unfinished_previous_is_no_settlement_target() {
    let mut store = Store::new();
    update_events(&mut store, &vec![event(4, false, false, true, false)]);
    assert!(find_finished_previous_event(&store).is_none());
}
