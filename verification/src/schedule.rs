//! The cron engine: parsing cron expressions and computing trigger instants,
//! through the `cron` crate behind trusted wrappers, plus the verified
//! arithmetic around them.

use vstd::prelude::*;

verus! {

/// Whether the `cron` crate accepts a text as a schedule expression; a
/// function of the text alone.
pub uninterp spec fn cron_parses(s: Seq<char>) -> bool;

/// The next trigger instant (epoch seconds) of a schedule expression strictly
/// after a given instant, or `None` when the schedule has run out; a function
/// of the expression and the instant alone (evaluated in UTC).
pub uninterp spec fn cron_next_after(s: Seq<char>, now_epoch: int) -> Option<i64>;

#[verifier::external_type_specification]
#[verifier::external_body]
pub struct ExSchedule(cron::Schedule);

/// A parsed cron schedule, paired with the expression it was parsed from so
/// that contracts can speak of the schedule by its text.
pub struct JobSchedule {
    expression: String,
    parsed: cron::Schedule,
}

impl JobSchedule {
    /// The text this schedule was parsed from.
    pub closed spec fn expr(&self) -> Seq<char> {
        self.expression@
    }

    /// Relies on `cron`'s `Schedule::from_str`: parsing succeeds or fails
    /// deterministically in the expression text.
    #[verifier::external_body]
    pub fn parse(expression: &str) -> (r: Option<JobSchedule>)
        ensures
            r is Some <==> cron_parses(expression@),
            r matches Some(js) ==> js.expr() == expression@,
    {
        match <cron::Schedule as core::str::FromStr>::from_str(expression) {
            Ok(parsed) => Some(JobSchedule { expression: expression.to_owned(), parsed }),
            Err(_) => None,
        }
    }

    /// Relies on `cron`'s `Schedule::after` iterator: it yields the matching
    /// instants strictly after the given instant (its search starts one
    /// second past it), deterministically in the expression and the instant.
    /// That one-second step must stay inside `chrono`'s range, so the
    /// instant is required to lie strictly below `chrono`'s last timestamp;
    /// [`crate::clock::now_epoch`]'s bound keeps every wall-clock reading
    /// inside it.
    #[verifier::external_body]
    pub fn next_trigger(&self, now_epoch: i64) -> (r: Option<i64>)
        requires
            now_epoch < 8_210_266_876_799,
        ensures
            r == cron_next_after(self.expr(), now_epoch as int),
            r matches Some(t) ==> t > now_epoch,
    {
        let now = chrono::DateTime::<chrono::Utc>::from_timestamp(now_epoch, 0)?;
        self.parsed.after(&now).next().map(|d| d.timestamp())
    }
}

/// How long a job loop sleeps until a trigger instant: the distance to it,
/// or nothing at all when the instant has already passed (fire immediately;
/// a missed tick is absorbed, never queued).
pub fn wait_seconds(now_epoch: i64, trigger_epoch: i64) -> (r: u64)
    ensures
        r as int == if trigger_epoch > now_epoch {
            trigger_epoch - now_epoch
        } else {
            0
        },
{
    if trigger_epoch > now_epoch {
        ((trigger_epoch as i128) - (now_epoch as i128)) as u64
    } else {
        0
    }
}

} // verus!
