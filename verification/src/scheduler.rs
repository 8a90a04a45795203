//! The job scheduler: named jobs registered against cron expressions, one
//! shared context, and the per-tick work of each job as a verified function
//! of the store. Starting the scheduler validates every expression up front
//! (fail fast); the concurrent timer loops themselves are plain I/O plumbing
//! around [`JobSchedule::next_trigger`], [`wait_seconds`] and [`run_job`].

use vstd::prelude::*;

use crate::event_status::upsert_all;
use crate::lifecycle::promote_finished_view;
use crate::lifecycle::promote_live_view;
use crate::schedule::JobSchedule;
use crate::schedule::cron_parses;
use crate::services::Bootstrap;
use crate::services::Event;
use crate::services::FeedError;
use crate::store::Store;
use crate::store::StoreView;

verus! {

/// The fixed schedules the engine runs on.
#[derive(Clone, Copy, Debug, PartialEq, Eq, Structural)]
pub enum CronExpression {
    EveryFiveMinutes,
    EveryThreeMinutes,
}

impl CronExpression {
    /// The six-field cron text of this schedule.
    pub open spec fn spec_str(&self) -> Seq<char> {
        match self {
            CronExpression::EveryFiveMinutes => "0 */5 * * * *"@,
            CronExpression::EveryThreeMinutes => "0 */3 * * * *"@,
        }
    }

    /// The cron text handed to the cron engine.
    pub fn to_string(&self) -> (s: String)
        ensures
            s@ == self.spec_str(),
    {
        match self {
            CronExpression::EveryFiveMinutes => "0 */5 * * * *".to_owned(),
            CronExpression::EveryThreeMinutes => "0 */3 * * * *".to_owned(),
        }
    }
}

/// The closed set of jobs the scheduler can drive.
#[derive(Clone, Copy, Debug, PartialEq, Eq, Structural)]
pub enum JobKind {
    /// Fetch the gameweek feed and reconcile it into the store.
    UpdateEventStatus,
    /// Promote this gameweek's waiting matches to live.
    UpdateMatchesToLive,
    /// Promote the finished gameweek's live matches to finished.
    UpdateMatchesToFinished,
}

/// A registered job: a cron text and what to run on each trigger.
pub struct ScheduledJob {
    pub cron: String,
    pub kind: JobKind,
}

/// The scheduler under construction: registration is append-only (duplicate
/// names and shared expressions stack; nothing deduplicates).
pub struct Scheduler {
    pub context: Option<Store>,
    pub jobs: Vec<ScheduledJob>,
}

/// A job ready to run: its parsed schedule and its work.
pub struct PlannedJob {
    pub schedule: JobSchedule,
    pub kind: JobKind,
}

/// A started scheduler: every expression parsed, the shared context bound.
/// Each job loop owns its own schedule and shares nothing else in-process.
pub struct SchedulerRun {
    pub context: Store,
    pub jobs: Vec<PlannedJob>,
}

/// An invalid cron expression, reported before any job runs.
#[derive(Debug)]
pub struct ScheduleParseError {
    pub expression: String,
}

/// The view of a store no context was bound for: a default-constructed one.
pub open spec fn empty_store_view() -> StoreView {
    StoreView {
        events: Seq::empty(),
        matches: Seq::empty(),
        users: Seq::empty(),
        transactions: Seq::empty(),
        next_match_id: 1,
        next_transaction_id: 1,
        next_user_id: 1,
    }
}

impl Scheduler {
    /// A scheduler with no jobs and no context.
    pub fn new() -> (s: Self)
        ensures
            s.jobs@.len() == 0,
            s.context is None,
    {
        Scheduler { context: None, jobs: Vec::new() }
    }

    /// Register one more job; earlier registrations keep their order.
    pub fn add_job(self, cron_expression: CronExpression, job: JobKind) -> (s: Self)
        ensures
            s.jobs@.len() == self.jobs@.len() + 1,
            s.jobs@.take(self.jobs@.len() as int) == self.jobs@,
            s.jobs@.last().cron@ == cron_expression.spec_str(),
            s.jobs@.last().kind == job,
            s.context == self.context,
    {
        let mut s = self;
        s.jobs.push(ScheduledJob { cron: cron_expression.to_string(), kind: job });
        proof {
            assert(s.jobs@.take(s.jobs@.len() - 1) =~= s.jobs@.drop_last());
        }
        s
    }

    /// Bind the shared context every job receives.
    pub fn set_context(self, context: Store) -> (s: Self)
        ensures
            s.context == Some(context),
            s.jobs == self.jobs,
    {
        let mut s = self;
        s.context = Some(context);
        s
    }

    /// Start the scheduler: parse every registered expression, failing fast
    /// on the first invalid one, and hand back the planned jobs in
    /// registration order together with the bound (or default) context. The
    /// caller then drives each job's timer loop concurrently.
    pub fn start(self) -> (r: Result<SchedulerRun, ScheduleParseError>)
        ensures
            r is Ok <==> forall|i: int|
                0 <= i < self.jobs@.len() ==> cron_parses(#[trigger] self.jobs@[i].cron@),
            r matches Ok(run) ==> {
                &&& run.jobs@.len() == self.jobs@.len()
                &&& forall|i: int|
                    0 <= i < self.jobs@.len() ==> (#[trigger] run.jobs@[i]).schedule.expr()
                        == self.jobs@[i].cron@ && run.jobs@[i].kind == self.jobs@[i].kind
                &&& match self.context {
                    Some(c) => run.context == c,
                    None => run.context@ == empty_store_view(),
                }
            },
            r matches Err(e) ==> exists|i: int|
                0 <= i < self.jobs@.len() && !cron_parses(#[trigger] self.jobs@[i].cron@)
                    && e.expression@ == self.jobs@[i].cron@,
    {
        let mut planned: Vec<PlannedJob> = Vec::new();
        let n = self.jobs.len();
        let mut i: usize = 0;
        while i < n
            invariant
                i <= n,
                n == self.jobs@.len(),
                planned@.len() == i,
                forall|k: int|
                    0 <= k < i ==> (#[trigger] planned@[k]).schedule.expr()
                        == self.jobs@[k].cron@ && planned@[k].kind == self.jobs@[k].kind,
                forall|k: int| 0 <= k < i ==> cron_parses(#[trigger] self.jobs@[k].cron@),
            decreases n - i,
        {
            let job = &self.jobs[i];
            match JobSchedule::parse(job.cron.as_str()) {
                Some(schedule) => {
                    planned.push(PlannedJob { schedule, kind: job.kind });
                },
                None => {
                    return Err(ScheduleParseError { expression: job.cron.clone() });
                },
            }
            i += 1;
        }
        let context = match self.context {
            Some(c) => c,
            None => Store::new(),
        };
        proof {
            assert(context@ =~= match self.context {
                Some(c) => c@,
                None => empty_store_view(),
            });
        }
        Ok(SchedulerRun { context, jobs: planned })
    }
}

/// Reconciling the feed into the store, on the store's view.
pub open spec fn ingest_view(v: StoreView, events: Seq<Event>) -> StoreView {
    StoreView { events: upsert_all(v.events, events), ..v }
}

/// What one tick of a job does to the store, as a function of the store's
/// view and — for the ingestion job — of what the feed fetch produced. A
/// failed fetch makes the tick a no-op.
pub open spec fn run_job_view(
    v: StoreView,
    kind: JobKind,
    fetched_events: Option<Seq<Event>>,
) -> StoreView {
    match kind {
        JobKind::UpdateEventStatus => match fetched_events {
            Some(events) => ingest_view(v, events),
            None => v,
        },
        JobKind::UpdateMatchesToLive => promote_live_view(v),
        JobKind::UpdateMatchesToFinished => promote_finished_view(v),
    }
}

/// The events a fetch produced, if it produced any.
pub open spec fn fetched_events_of(fetched: Result<Bootstrap, FeedError>) -> Option<Seq<Event>> {
    match fetched {
        Ok(b) => Some(b.events@),
        Err(_) => None,
    }
}

/// The ingestion job's tick: reconcile what the fetch produced, or skip the
/// whole tick when the fetch failed — no partial upsert, the error is
/// reported to the caller and nothing else happens.
pub fn update_event_status_every_3_mins(store: &mut Store, fetched: Result<Bootstrap, FeedError>) -> (r: Result<
    (),
    FeedError,
>)
    requires
        old(store).wf(),
    ensures
        final(store)@ == run_job_view(
            old(store)@,
            JobKind::UpdateEventStatus,
            fetched_events_of(fetched),
        ),
        r is Ok <==> fetched is Ok,
        final(store).wf(),
{
    match fetched {
        Ok(bootstrap) => {
            crate::event_status::update_events(store, &bootstrap.events);
            proof {
                assert(final(store)@ =~= ingest_view(old(store)@, bootstrap.events@));
            }
            Ok(())
        },
        Err(e) => Err(e),
    }
}

/// One tick of any job against the shared store. Job errors never escalate:
/// whatever the fetch produced, the tick completes and leaves the store in
/// the state [`run_job_view`] gives.
pub fn run_job(store: &mut Store, kind: JobKind, fetched: Result<Bootstrap, FeedError>)
    requires
        old(store).wf(),
    ensures
        final(store)@ == run_job_view(old(store)@, kind, fetched_events_of(fetched)),
        final(store).wf(),
{
    match kind {
        JobKind::UpdateEventStatus => {
            let _ = update_event_status_every_3_mins(store, fetched);
        },
        JobKind::UpdateMatchesToLive => {
            crate::lifecycle::update_matches_to_live(store);
        },
        JobKind::UpdateMatchesToFinished => {
            crate::lifecycle::update_matches_to_finished(store);
        },
    }
}

/// Scheduler isolation: a job whose work fails on a tick (the ingestion job
/// with a failed fetch) leaves the store exactly as it was, so a sibling
/// job's tick computes the same result as if the failing job had never run.
pub proof fn lemma_scheduler_isolation(
    v: StoreView,
    kind: JobKind,
    fetched_events: Option<Seq<Event>>,
)
    ensures
        run_job_view(v, JobKind::UpdateEventStatus, None) == v,
        run_job_view(
            run_job_view(v, JobKind::UpdateEventStatus, None),
            kind,
            fetched_events,
        ) == run_job_view(v, kind, fetched_events),
{
}

} // verus!
