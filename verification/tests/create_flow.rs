use gameweek_engine::error::RejectedApi;
use gameweek_engine::event_status::update_events;
use gameweek_engine::handlers::create_match;
use gameweek_engine::services::Event;
use gameweek_engine::settlement::update_d_coin;
use gameweek_engine::store::ChipRule;
use gameweek_engine::store::MatchStatus;
use gameweek_engine::store::Store;
use gameweek_engine::store::TransactionFlag;
use gameweek_engine::store::TransferRule;
use gameweek_engine::users::save;
use gameweek_engine::users::CreateUser;

fn next_gameweek_event(id: i32) -> Event {
    Event {
        average_entry_score: 0,
        data_checked: false,
        deadline_time: "1970-01-01T00:00:00+00:00".to_string(),
        deadline_time_epoch: 0,
        deadline_time_game_offset: 0,
        finished: false,
        highest_score: None,
        highest_scoring_entry: None,
        id,
        is_current: false,
        is_next: true,
        is_previous: false,
        most_captained: None,
        most_selected: None,
        most_transferred_in: None,
        most_vice_captained: None,
        name: format!("Gameweek {}", id),
        top_element: None,
        transfers_made: 0,
        cup_leagues_created: false,
        h2h_ko_matches_created: false,
    }
}

fn payload(bet: i32, quantity: u32) -> create_match::Payload {
    create_match::Payload {
        bet,
        quantity,
        chip_rule: ChipRule::Allowed,
        transfer_rule: TransferRule::NotAllowed,
        is_private: None,
        min_week_started: None,
    }
}

fn caller_with_balance(store: &mut Store, coins: i32) -> i32 {
    let id = save(
        store,
        CreateUser { email: "caller@example.com".to_string(), fpl_id: None, google_id: None, facebook_id: None },
    )
    .id;
    update_d_coin(store, id, coins, TransactionFlag::Up);
    id
}

#[test]
fn the_handler_creates_against_the_next_gameweek() {
    let mut store = Store::new();
    let caller = caller_with_balance(&mut store, 100);
    update_events(&mut store, &vec![next_gameweek_event(8)]);

    let body = payload(20, 3);
    assert!(body.validate());
    assert!(create_match::handler(&mut store, caller, &body).is_ok());

    assert_eq!(store.matches.len(), 3);
    for m in &store.matches {
        assert_eq!(m.gameweek, 8);
        assert_eq!(m.status, MatchStatus::Next);
        assert_eq!(m.bet_amount, 20);
        assert!(!m.is_private);
        assert_eq!(m.chip_rule, ChipRule::Allowed);
        assert_eq!(m.transfer_rule, TransferRule::NotAllowed);
    }
    assert_eq!(store.users[0].d_coin, 40);
    assert_eq!(store.transactions.len(), 1);
    assert_eq!(store.transactions[0].on_gameweek, 8);
}

#[test]
fn without_a_next_gameweek_the_handler_refuses() {
    let mut store = Store::new();
    let caller = caller_with_balance(&mut store, 100);
    let r = create_match::handler(&mut store, caller, &payload(20, 3));
    assert!(matches!(r, Err(RejectedApi::InternalError(_))));
    assert_eq!(store.matches.len(), 0);
    assert_eq!(store.users[0].d_coin, 100);
}

#[test]
fn an_unknown_caller_is_refused() {
    let mut store = Store::new();
    update_events(&mut store, &vec![next_gameweek_event(8)]);
    let r = create_match::handler(&mut store, 42, &payload(20, 3));
    assert!(matches!(r, Err(RejectedApi::AuthenticationError(_))));
    assert_eq!(store.matches.len(), 0);
}

#[test]
fn a_short_balance_is_refused_before_any_mutation() {
    let mut store = Store::new();
    let caller = caller_with_balance(&mut store, 59);
    update_events(&mut store, &vec![next_gameweek_event(8)]);
    let r = create_match::handler(&mut store, caller, &payload(20, 3));
    assert!(matches!(r, Err(RejectedApi::ClientError(_))));
    assert_eq!(store.matches.len(), 0);
    assert_eq!(store.transactions.len(), 0);
    assert_eq!(store.users[0].d_coin, 59);
}

#[test]
fn payload_validation_rules() {
    assert!(payload(1, 1).validate());
    assert!(!payload(0, 1).validate());
    assert!(!payload(1, 0).validate());
    let mut with_week = payload(1, 1);
    with_week.min_week_started = Some(0);
    assert!(!with_week.validate());
    with_week.min_week_started = Some(3);
    assert!(with_week.validate());
}
