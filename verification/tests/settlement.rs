use gameweek_engine::settlement::create_matches;
use gameweek_engine::settlement::update_d_coin;
use gameweek_engine::settlement::MatchRules;
use gameweek_engine::settlement::SettlementError;
use gameweek_engine::store::ChipRule;
use gameweek_engine::store::MatchStatus;
use gameweek_engine::store::Store;
use gameweek_engine::store::TransactionFlag;
use gameweek_engine::store::TransactionType;
use gameweek_engine::store::TransferRule;
use gameweek_engine::users::save;
use gameweek_engine::users::CreateUser;

fn rules() -> MatchRules {
    MatchRules {
        chip_rule: ChipRule::NotAllowed,
        transfer_rule: TransferRule::Allowed,
        is_private: false,
    }
}

fn user_with_balance(store: &mut Store, coins: i32) -> i32 {
    let user = save(
        store,
        CreateUser { email: "creator@example.com".to_string(), fpl_id: None, google_id: None, facebook_id: None },
    );
    update_d_coin(store, user.id, coins, TransactionFlag::Up);
    user.id
}

#[test]
fn three_matches_at_twenty_from_a_hundred() {
    let mut store = Store::new();
    let creator = user_with_balance(&mut store, 100);

    let r = create_matches(&mut store, creator, 20, 3, 7, rules(), "23-24");
    assert!(r.is_ok());

    // exactly three new match rows, all waiting, all staked at 20
    assert_eq!(store.matches.len(), 3);
    for m in &store.matches {
        assert_eq!(m.status, MatchStatus::Next);
        assert_eq!(m.bet_amount, 20);
        assert_eq!(m.owner_id, creator);
        assert_eq!(m.gameweek, 7);
        assert_eq!(m.season, "23-24".to_string());
        assert!(m.opponent_id.is_none());
        assert!(m.winner_id.is_none());
        assert!(!m.is_matched);
    }
    // distinct serial ids
    assert_eq!(store.matches[0].id, 1);
    assert_eq!(store.matches[1].id, 2);
    assert_eq!(store.matches[2].id, 3);

    // the balance fell from 100 to 40
    assert_eq!(store.users[0].d_coin, 40);

    // one ledger row with a delta of -60
    assert_eq!(store.transactions.len(), 1);
    let entry = &store.transactions[0];
    assert_eq!(entry.owner_id, creator);
    assert_eq!(entry.d_coin, 60);
    assert_eq!(entry.flag, TransactionFlag::Down);
    assert_eq!(entry.kind, TransactionType::CreateMatch);
    assert_eq!(entry.quantity, 3);
    assert_eq!(entry.on_gameweek, 7);
    assert_eq!(entry.message, Some("You have created 3 matches".to_string()));
}

#[test]
fn short_balance_refuses_and_mutates_nothing() {
    let mut store = Store::new();
    let creator = user_with_balance(&mut store, 59);

    let r = create_matches(&mut store, creator, 20, 3, 7, rules(), "23-24");
    assert_eq!(r, Err(SettlementError::InsufficientFunds));

    assert_eq!(store.matches.len(), 0);
    assert_eq!(store.transactions.len(), 0);
    assert_eq!(store.users[0].d_coin, 59);
}

#[test]
fn exact_balance_settles_to_zero() {
    let mut store = Store::new();
    let creator = user_with_balance(&mut store, 60);

    assert!(create_matches(&mut store, creator, 20, 3, 7, rules(), "23-24").is_ok());
    assert_eq!(store.users[0].d_coin, 0);
}

#[test]
fn zero_quantity_is_an_invalid_request() {
    let mut store = Store::new();
    let creator = user_with_balance(&mut store, 100);
    let r = create_matches(&mut store, creator, 20, 0, 7, rules(), "23-24");
    assert_eq!(r, Err(SettlementError::InvalidRequest));
    assert_eq!(store.matches.len(), 0);
}

#[test]
fn zero_bet_is_an_invalid_request() {
    let mut store = Store::new();
    let creator = user_with_balance(&mut store, 100);
    let r = create_matches(&mut store, creator, 0, 3, 7, rules(), "23-24");
    assert_eq!(r, Err(SettlementError::InvalidRequest));
}

#[test]
fn unknown_creator_is_refused() {
    let mut store = Store::new();
    let r = create_matches(&mut store, 42, 20, 3, 7, rules(), "23-24");
    assert_eq!(r, Err(SettlementError::UserNotFound));
    assert_eq!(store.matches.len(), 0);
    assert_eq!(store.transactions.len(), 0);
}

#[test]
fn update_d_coin_moves_only_the_matching_user() {
    let mut store = Store::new();
    let first = user_with_balance(&mut store, 10);
    let second = save(
        &mut store,
        CreateUser { email: "other@example.com".to_string(), fpl_id: None, google_id: None, facebook_id: None },
    )
    .id;

    update_d_coin(&mut store, first, 5, TransactionFlag::Down);
    update_d_coin(&mut store, second, 8, TransactionFlag::Up);

    assert_eq!(store.users[0].d_coin, 5);
    assert_eq!(store.users[1].d_coin, 8);

    // a missing user updates zero rows
    update_d_coin(&mut store, 99, 3, TransactionFlag::Up);
    assert_eq!(store.users[0].d_coin, 5);
    assert_eq!(store.users[1].d_coin, 8);
}
