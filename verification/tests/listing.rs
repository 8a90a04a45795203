use gameweek_engine::handlers::get_matches;
use gameweek_engine::handlers::get_matches::FindMatchesOption;
use gameweek_engine::handlers::get_matches::QueryParams;
use gameweek_engine::matches::find_matches;
use gameweek_engine::matches::FindMatchesParams;
use gameweek_engine::settlement::create_matches;
use gameweek_engine::settlement::update_d_coin;
use gameweek_engine::settlement::MatchRules;
use gameweek_engine::store::ChipRule;
use gameweek_engine::store::MatchStatus;
use gameweek_engine::store::Store;
use gameweek_engine::store::TransactionFlag;
use gameweek_engine::store::TransferRule;
use gameweek_engine::users::save;
use gameweek_engine::users::CreateUser;

fn rules() -> MatchRules {
    MatchRules {
        chip_rule: ChipRule::Allowed,
        transfer_rule: TransferRule::Allowed,
        is_private: false,
    }
}

fn named_user(store: &mut Store, email: &str, coins: i32) -> i32 {
    let id = save(
        store,
        CreateUser { email: email.to_string(), fpl_id: None, google_id: None, facebook_id: None },
    )
    .id;
    update_d_coin(store, id, coins, TransactionFlag::Up);
    id
}

fn two_creators(store: &mut Store) -> (i32, i32) {
    let alice = named_user(store, "alice@example.com", 100);
    let bob = named_user(store, "bob@example.com", 100);
    // matches 1..=3 belong to alice, 4 and 5 to bob
    assert!(create_matches(store, alice, 10, 3, 5, rules(), "23-24").is_ok());
    assert!(create_matches(store, bob, 10, 2, 5, rules(), "23-24").is_ok());
    (alice, bob)
}

#[test]
fn created_by_filter_lists_only_the_owners_matches() {
    let mut store = Store::new();
    let (alice, _) = two_creators(&mut store);
    let params = FindMatchesParams {
        take: 10,
        page: 1,
        created_by: Some(alice),
        joined_by_or_created: None,
        exclude_created_by: None,
        status: MatchStatus::Next,
        season: None,
    };
    let (nodes, total) = find_matches(&store, params);
    assert_eq!(total, 3);
    assert_eq!(nodes.len(), 3);
    assert_eq!(nodes[0].details.id, 1);
    assert_eq!(nodes[1].details.id, 2);
    assert_eq!(nodes[2].details.id, 3);
    assert_eq!(nodes[0].owner.id, Some(alice));
    assert_eq!(nodes[0].owner.name, None);
    assert!(nodes[0].opponent.is_none());
    assert!(nodes[0].winner.is_none());
}

#[test]
fn pagination_slices_the_filtered_rows() {
    let mut store = Store::new();
    two_creators(&mut store);
    let params = FindMatchesParams {
        take: 2,
        page: 2,
        created_by: None,
        joined_by_or_created: None,
        exclude_created_by: None,
        status: MatchStatus::Next,
        season: None,
    };
    let (nodes, total) = find_matches(&store, params);
    assert_eq!(total, 5);
    assert_eq!(nodes.len(), 2);
    assert_eq!(nodes[0].details.id, 3);
    assert_eq!(nodes[1].details.id, 4);

    let past_the_end = FindMatchesParams {
        take: 2,
        page: 4,
        created_by: None,
        joined_by_or_created: None,
        exclude_created_by: None,
        status: MatchStatus::Next,
        season: None,
    };
    let (nodes, total) = find_matches(&store, past_the_end);
    assert_eq!(total, 5);
    assert_eq!(nodes.len(), 0);
}

#[test]
fn season_filter_excludes_other_seasons() {
    let mut store = Store::new();
    let alice = named_user(&mut store, "alice@example.com", 100);
    assert!(create_matches(&mut store, alice, 10, 1, 5, rules(), "22-23").is_ok());
    assert!(create_matches(&mut store, alice, 10, 1, 5, rules(), "23-24").is_ok());
    let params = FindMatchesParams {
        take: 10,
        page: 1,
        created_by: None,
        joined_by_or_created: None,
        exclude_created_by: None,
        status: MatchStatus::Next,
        season: Some("23-24".to_string()),
    };
    let (nodes, total) = find_matches(&store, params);
    assert_eq!(total, 1);
    assert_eq!(nodes[0].details.id, 2);
}

#[test]
fn flash_matches_exclude_the_callers_own() {
    let mut store = Store::new();
    let (alice, bob) = two_creators(&mut store);
    let query = QueryParams {
        status: MatchStatus::Finished,
        page: 1,
        take: 10,
        option: FindMatchesOption::FlashMatch,
        season: None,
    };
    assert!(query.validate());
    let response = get_matches::handler(&store, alice, query);
    // the flash listing always shows waiting matches, whatever status was asked
    assert_eq!(response.total, 2);
    assert_eq!(response.page, 1);
    assert_eq!(response.nodes.len(), 2);
    assert!(response.nodes.iter().all(|n| n.owner.id == Some(bob)));
}

#[test]
fn my_matches_options_pick_the_callers_rows() {
    let mut store = Store::new();
    let (alice, _) = two_creators(&mut store);
    let mine = QueryParams {
        status: MatchStatus::Next,
        page: 1,
        take: 10,
        option: FindMatchesOption::MyMatches,
        season: None,
    };
    let response = get_matches::handler(&store, alice, mine);
    assert_eq!(response.total, 3);

    let mine_or_joined = QueryParams {
        status: MatchStatus::Next,
        page: 1,
        take: 10,
        option: FindMatchesOption::MyMatchesAndMyJoinedMatches,
        season: None,
    };
    let response = get_matches::handler(&store, alice, mine_or_joined);
    assert_eq!(response.total, 3);
}

#[test]
fn season_tags_validate_by_shape() {
    assert!(get_matches::is_valid_season("2023-2024"));
    assert!(!get_matches::is_valid_season("23-24"));
    assert!(!get_matches::is_valid_season("2023/2024"));
    assert!(!get_matches::is_valid_season("2023-20245"));
    assert!(!get_matches::is_valid_season("abcd-efgh"));
}

#[test]
fn query_params_validate_page_and_take() {
    let good = QueryParams {
        status: MatchStatus::Next,
        page: 1,
        take: 300,
        option: FindMatchesOption::MyMatches,
        season: Some("2023-2024".to_string()),
    };
    assert!(good.validate());
    let zero_page = QueryParams { page: 0, ..good };
    assert!(!zero_page.validate());
    let huge_take = QueryParams {
        status: MatchStatus::Next,
        page: 1,
        take: 301,
        option: FindMatchesOption::MyMatches,
        season: None,
    };
    assert!(!huge_take.validate());
}
