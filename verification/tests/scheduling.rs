use gameweek_engine::schedule::wait_seconds;
use gameweek_engine::schedule::JobSchedule;
use gameweek_engine::scheduler::run_job;
use gameweek_engine::scheduler::update_event_status_every_3_mins;
use gameweek_engine::scheduler::CronExpression;
use gameweek_engine::scheduler::JobKind;
use gameweek_engine::scheduler::Scheduler;
use gameweek_engine::services::Bootstrap;
use gameweek_engine::services::Event;
use gameweek_engine::services::FeedError;
use gameweek_engine::store::MatchStatus;
use gameweek_engine::store::Store;
use gameweek_engine::store::TransactionFlag;
use gameweek_engine::settlement::create_matches;
use gameweek_engine::settlement::update_d_coin;
use gameweek_engine::settlement::MatchRules;
use gameweek_engine::store::ChipRule;
use gameweek_engine::store::TransferRule;
use gameweek_engine::users::save;
use gameweek_engine::users::CreateUser;

fn bootstrap_with_current(id: i32) -> Bootstrap {
    Bootstrap {
        events: vec![Event {
            average_entry_score: 0,
            data_checked: false,
            deadline_time: "1970-01-01T00:00:00+00:00".to_string(),
            deadline_time_epoch: 0,
            deadline_time_game_offset: 0,
            finished: false,
            highest_score: None,
            highest_scoring_entry: None,
            id,
            is_current: true,
            is_next: false,
            is_previous: false,
            most_captained: None,
            most_selected: None,
            most_transferred_in: None,
            most_vice_captained: None,
            name: format!("Gameweek {}", id),
            top_element: None,
            transfers_made: 0,
            cup_leagues_created: false,
            h2h_ko_matches_created: false,
        }],
    }
}

#[test]
fn cron_expressions_spell_their_schedules() {
    assert_eq!(CronExpression::EveryFiveMinutes.to_string(), "0 */5 * * * *".to_string());
    assert_eq!(CronExpression::EveryThreeMinutes.to_string(), "0 */3 * * * *".to_string());
}

#[test]
fn valid_expressions_parse_and_invalid_ones_do_not() {
    assert!(JobSchedule::parse("0 */5 * * * *").is_some());
    assert!(JobSchedule::parse("0 */3 * * * *").is_some());
    assert!(JobSchedule::parse("every five minutes").is_none());
    assert!(JobSchedule::parse("").is_none());
}

#[test]
fn next_trigger_is_strictly_after_now() {
    let schedule = JobSchedule::parse("0 */5 * * * *").unwrap();
    // from the epoch, the next five-minute boundary is five minutes in
    assert_eq!(schedule.next_trigger(0), Some(300));
    // one second short of the boundary still fires at the boundary
    assert_eq!(schedule.next_trigger(299), Some(300));
    // exactly on the boundary fires at the next one
    assert_eq!(schedule.next_trigger(300), Some(600));
}

#[test]
fn wait_seconds_never_waits_for_the_past() {
    assert_eq!(wait_seconds(100, 130), 30);
    assert_eq!(wait_seconds(130, 130), 0);
    // a trigger already behind us fires immediately
    assert_eq!(wait_seconds(200, 130), 0);
}

#[test]
fn start_plans_every_job_in_order() {
    let run = Scheduler::new()
        .set_context(Store::new())
        .add_job(CronExpression::EveryThreeMinutes, JobKind::UpdateEventStatus)
        .add_job(CronExpression::EveryFiveMinutes, JobKind::UpdateMatchesToLive)
        .add_job(CronExpression::EveryFiveMinutes, JobKind::UpdateMatchesToFinished)
        .start()
        .unwrap();
    assert_eq!(run.jobs.len(), 3);
    assert_eq!(run.jobs[0].kind, JobKind::UpdateEventStatus);
    assert_eq!(run.jobs[1].kind, JobKind::UpdateMatchesToLive);
    assert_eq!(run.jobs[2].kind, JobKind::UpdateMatchesToFinished);
    assert_eq!(run.jobs[0].schedule.next_trigger(0), Some(180));
}

#[test]
fn start_without_a_context_uses_an_empty_store() {
    let run = Scheduler::new()
        .add_job(CronExpression::EveryFiveMinutes, JobKind::UpdateMatchesToLive)
        .start()
        .unwrap();
    assert!(run.context.events.is_empty());
    assert!(run.context.matches.is_empty());
    assert!(run.context.users.is_empty());
}

#[test]
fn failed_fetch_skips_the_tick() {
    let mut store = Store::new();
    let r = update_event_status_every_3_mins(
        &mut store,
        Err(FeedError::Fetch("connection refused".to_string())),
    );
    assert!(r.is_err());
    assert!(store.events.is_empty());
}

#[test]
fn failing_job_does_not_stop_its_sibling() {
    let mut store = Store::new();
    let creator = save(
        &mut store,
        CreateUser { email: "creator@example.com".to_string(), fpl_id: None, google_id: None, facebook_id: None },
    )
    .id;
    update_d_coin(&mut store, creator, 100, TransactionFlag::Up);
    let match_rules = MatchRules {
        chip_rule: ChipRule::Allowed,
        transfer_rule: TransferRule::Allowed,
        is_private: false,
    };
    assert!(create_matches(&mut store, creator, 10, 2, 5, match_rules, "23-24").is_ok());
    run_job(&mut store, JobKind::UpdateEventStatus, Ok(bootstrap_with_current(5)));

    // the ingestion job now fails on every tick...
    run_job(&mut store, JobKind::UpdateEventStatus, Err(FeedError::Fetch("down".to_string())));
    run_job(&mut store, JobKind::UpdateEventStatus, Err(FeedError::Parse("bad body".to_string())));

    // ...and the lifecycle job still fires and does its work
    run_job(&mut store, JobKind::UpdateMatchesToLive, Err(FeedError::Fetch("down".to_string())));
    assert!(store.matches.iter().all(|m| m.status == MatchStatus::Live));
}
