use gameweek_engine::auth::exp_timestamp;
use gameweek_engine::auth::renew_key;
use gameweek_engine::auth::Claims;
use gameweek_engine::auth::SubClaims;
use gameweek_engine::error::RejectedApi;
use gameweek_engine::handlers::facebook_register;
use gameweek_engine::handlers::login;
use gameweek_engine::handlers::login::LoginOption;
use gameweek_engine::handlers::update_fpl_id;
use gameweek_engine::store::Store;
use gameweek_engine::users::find_by_id;
use gameweek_engine::users::find_first_by_platform_id;
use gameweek_engine::users::save;
use gameweek_engine::users::CreateUser;

#[test]
fn save_assigns_serial_ids_and_defaults() {
    let mut store = Store::new();
    let first = save(
        &mut store,
        CreateUser {
            email: "a@example.com".to_string(),
            fpl_id: Some(7),
            google_id: Some("google-a".to_string()),
            facebook_id: None,
        },
    );
    let second = save(
        &mut store,
        CreateUser { email: "b@example.com".to_string(), fpl_id: None, google_id: None, facebook_id: None },
    );
    assert_eq!(first.id, 1);
    assert_eq!(second.id, 2);
    assert_eq!(first.email, "a@example.com".to_string());
    assert_eq!(first.fpl_id, Some(7));
    assert_eq!(first.d_coin, 0);
    assert!(first.active);
    assert_eq!(store.users.len(), 2);
}

#[test]
fn find_by_id_points_at_the_right_row() {
    let mut store = Store::new();
    save(&mut store, CreateUser { email: "a@example.com".to_string(), fpl_id: None, google_id: None, facebook_id: None });
    save(&mut store, CreateUser { email: "b@example.com".to_string(), fpl_id: None, google_id: None, facebook_id: None });
    assert_eq!(find_by_id(&store, 2).unwrap().email, "b@example.com".to_string());
    assert!(find_by_id(&store, 3).is_none());
}

#[test]
fn platform_lookup_filters_by_the_asked_identity() {
    let mut store = Store::new();
    save(
        &mut store,
        CreateUser {
            email: "a@example.com".to_string(),
            fpl_id: None,
            google_id: Some("google-a".to_string()),
            facebook_id: None,
        },
    );
    save(
        &mut store,
        CreateUser {
            email: "b@example.com".to_string(),
            fpl_id: None,
            google_id: None,
            facebook_id: Some("facebook-b".to_string()),
        },
    );
    assert_eq!(find_first_by_platform_id(&store, Some("google-a"), None).unwrap().id, 1);
    assert_eq!(find_first_by_platform_id(&store, None, Some("facebook-b")).unwrap().id, 2);
    assert!(find_first_by_platform_id(&store, Some("google-b"), None).is_none());
}

#[test]
fn fpl_id_can_be_recorded_once() {
    let mut store = Store::new();
    let id = save(
        &mut store,
        CreateUser { email: "a@example.com".to_string(), fpl_id: None, google_id: None, facebook_id: None },
    )
    .id;
    let payload = update_fpl_id::Payload { fpl_id: 11 };
    assert!(update_fpl_id::handler(&mut store, id, &payload).is_ok());
    assert_eq!(store.users[0].fpl_id, Some(11));

    let again = update_fpl_id::Payload { fpl_id: 12 };
    let r = update_fpl_id::handler(&mut store, id, &again);
    assert!(matches!(r, Err(RejectedApi::ClientError(_))));
    assert_eq!(store.users[0].fpl_id, Some(11));
}

#[test]
fn fpl_id_payload_validation() {
    assert!(update_fpl_id::Payload { fpl_id: 1 }.validate());
    assert!(!update_fpl_id::Payload { fpl_id: 0 }.validate());
}

#[test]
fn registration_refuses_a_known_identity() {
    let mut store = Store::new();
    let first = facebook_register::handler(
        &mut store,
        "facebook-a".to_string(),
        "a@example.com".to_string(),
        Some(3),
    );
    let user = first.unwrap();
    assert_eq!(user.id, 1);
    assert_eq!(user.facebook_id, Some("facebook-a".to_string()));
    assert_eq!(user.fpl_id, Some(3));

    let second = facebook_register::handler(
        &mut store,
        "facebook-a".to_string(),
        "elsewhere@example.com".to_string(),
        None,
    );
    assert!(matches!(second, Err(RejectedApi::ClientError(_))));
    assert_eq!(store.users.len(), 1);
}

#[test]
fn login_resolves_the_vouched_identity() {
    let mut store = Store::new();
    save(
        &mut store,
        CreateUser {
            email: "a@example.com".to_string(),
            fpl_id: None,
            google_id: Some("google-a".to_string()),
            facebook_id: None,
        },
    );
    let (claims, sub_claims) = login::handler(&store, LoginOption::Google, "google-a").unwrap();
    assert_eq!(claims.id, 1);
    assert_eq!(sub_claims.sub, 1);

    let unknown = login::handler(&store, LoginOption::Facebook, "google-a");
    assert!(matches!(unknown, Err(RejectedApi::AuthenticationError(_))));
}

#[test]
fn rejections_map_to_their_status_codes() {
    assert_eq!(RejectedApi::AuthenticationError("who".to_string()).status_code(), 401);
    assert_eq!(RejectedApi::ClientError("what".to_string()).status_code(), 400);
    assert_eq!(RejectedApi::InternalError("ouch".to_string()).status_code(), 500);
    assert_eq!(RejectedApi::ClientError("what".to_string()).reason(), &"what".to_string());
}

#[test]
fn expiries_are_clamped_into_the_token_field() {
    assert_eq!(exp_timestamp(1_000_000, 604_800), 1_604_800);
    assert_eq!(exp_timestamp(-10, 3), 0);
    assert_eq!(exp_timestamp(i64::MAX, i64::MAX), u32::MAX);
}

#[test]
fn claims_carry_the_user_id() {
    let mut store = Store::new();
    let user = save(
        &mut store,
        CreateUser { email: "a@example.com".to_string(), fpl_id: None, google_id: None, facebook_id: None },
    );
    let claims = Claims::new(&user, 604_800);
    assert_eq!(claims.id, user.id);
    let sub_claims = SubClaims::new(user.id, 31_536_000);
    assert_eq!(sub_claims.sub, user.id);
}

#[test]
fn renew_keys_spell_the_user_id() {
    assert_eq!(renew_key(7), "renew_token_of_7".to_string());
    assert_eq!(renew_key(0), "renew_token_of_0".to_string());
    assert_eq!(renew_key(120453), "renew_token_of_120453".to_string());
    assert_eq!(renew_key(-5), "renew_token_of_-5".to_string());
    assert_eq!(renew_key(i32::MIN), "renew_token_of_-2147483648".to_string());
}
