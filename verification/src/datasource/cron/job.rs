//! Jobs that run on a schedule.
use vstd::prelude::*;

use crate::datasource::cron::schedule::{in_calendar, last_instant, next_run, Schedule};
use crate::runtime::config::{ScheduleMissedRunPolicy, ScheduleOverlapPolicy};
use crate::runtime::error::{RuntimeErrorView, RuntimeResult};

verus! {

/// A run that the driver is asked to make.
#[derive(Clone, Copy, Debug, PartialEq, Eq, Structural)]
pub struct Dispatch {
    pub endpoint_id: i32,
    /// The instant that the run was scheduled for.
    pub scheduled_at: i64,
    /// Whether the end of the run is to be reported.
    pub guarded: bool,
}

/// The job of a cron endpoint.
pub struct CronJob {
    pub endpoint_id: i32,
    pub endpoint_name: String,
    pub schedule: Schedule,
    pub overlap_policy: ScheduleOverlapPolicy,
    pub missed_run_policy: ScheduleMissedRunPolicy,
    /// Whether a run that must not be overlapped is going on.
    pub running: bool,
}

/// What asking for a run comes to. A job that must not overlap does not run while an
/// earlier run is going on.
pub open spec fn dispatched(job: CronJob, scheduled_at: i64) -> (CronJob, Option<Dispatch>) {
    let skips = job.overlap_policy == ScheduleOverlapPolicy::Skip;
    if skips && job.running {
        (job, None)
    } else {
        (
            CronJob { running: job.running || skips, ..job },
            Some(Dispatch { endpoint_id: job.endpoint_id, scheduled_at, guarded: skips }),
        )
    }
}

/// The last run that is due by `now`, counting from one that is, and the next one
/// after it.
pub open spec fn caught_up(schedule: Seq<char>, zone: Seq<char>, due: i64, now: i64) -> Result<
    (i64, i64),
    Seq<char>,
>
    decreases last_instant() - due,
{
    match next_run(schedule, zone, due) {
        Err(text) => Err(text),
        Ok(next) => if next > now {
            Ok((due, next))
        } else if due < next <= last_instant() {
            caught_up(schedule, zone, next, now)
        } else {
            Err(Seq::empty())
        },
    }
}

/// What the scheduler makes of a job whose next run is at `next`: the job, its next
/// run, and the run that is asked for. A job that is not due yet stays as it is. Of
/// runs that were missed, at most the last is made up for, and only where the job
/// says so.
pub open spec fn rung(job: CronJob, next: i64, now: i64) -> Result<
    (CronJob, i64, Option<Dispatch>),
    Seq<char>,
> {
    if next > now {
        Ok((job, next, None))
    } else {
        match caught_up(job.schedule.spec_pattern(), job.schedule.spec_zone(), next, now) {
            Err(text) => Err(text),
            Ok((last_due, following)) => if last_due == next || job.missed_run_policy
                == ScheduleMissedRunPolicy::FireOnce {
                let (after, dispatch) = dispatched(job, last_due);
                Ok((after, following, dispatch))
            } else {
                Ok((job, following, None))
            },
        }
    }
}

impl CronJob {
    pub fn new(
        endpoint_id: i32,
        endpoint_name: String,
        schedule: Schedule,
        overlap_policy: ScheduleOverlapPolicy,
        missed_run_policy: ScheduleMissedRunPolicy,
    ) -> (job: CronJob)
        ensures
            job == (CronJob {
                endpoint_id,
                endpoint_name,
                schedule,
                overlap_policy,
                missed_run_policy,
                running: false,
            }),
    {
        CronJob {
            endpoint_id,
            endpoint_name,
            schedule,
            overlap_policy,
            missed_run_policy,
            running: false,
        }
    }

    /// The run that comes next after an instant, in seconds since the epoch.
    pub fn next(&self, after: i64) -> (result: RuntimeResult<i64>)
        requires
            in_calendar(after as int),
        ensures
            ({
                let next = next_run(
                    self.schedule.spec_pattern(),
                    self.schedule.spec_zone(),
                    after,
                );
                match result {
                    Ok(run) => next == Ok::<i64, Seq<char>>(run) && after < run <= last_instant(),
                    Err(error) => next is Err && error@ == RuntimeErrorView::InvalidConfiguration(
                        next->Err_0,
                    ),
                }
            }),
    {
        self.schedule.next(after)
    }

    /// Asks for a run.
    pub fn dispatch(&mut self, scheduled_at: i64) -> (dispatch: Option<Dispatch>)
        ensures
            *final(self) == dispatched(*old(self), scheduled_at).0,
            dispatch == dispatched(*old(self), scheduled_at).1,
    {
        let skips: bool = self.overlap_policy == ScheduleOverlapPolicy::Skip;
        if skips {
            if self.running {
                return None;
            }
            self.running = true;
        }
        Some(Dispatch { endpoint_id: self.endpoint_id, scheduled_at, guarded: skips })
    }

    /// Takes the end of a run that was to be reported.
    pub fn finished(&mut self)
        ensures
            *final(self) == (CronJob { running: false, ..*old(self) }),
    {
        self.running = false;
    }

    /// Finds the last run that is due by `now`, counting from one that is, and the
    /// next one after it.
    pub fn catch_up(&self, due: i64, now: i64) -> (result: RuntimeResult<(i64, i64)>)
        requires
            in_calendar(due as int),
            due <= now,
        ensures
            ({
                let expected = caught_up(
                    self.schedule.spec_pattern(),
                    self.schedule.spec_zone(),
                    due,
                    now,
                );
                match result {
                    Ok((last_due, next)) => {
                        &&& expected == Ok::<(i64, i64), Seq<char>>((last_due, next))
                        &&& due <= last_due <= now < next <= last_instant()
                    },
                    Err(error) => {
                        &&& expected is Err
                        &&& error@ == RuntimeErrorView::InvalidConfiguration(expected->Err_0)
                    },
                }
            }),
    {
        let ghost pattern = self.schedule.spec_pattern();
        let ghost zone = self.schedule.spec_zone();
        let mut last_due: i64 = due;
        let mut next: i64 = match self.next(due) {
            Ok(next) => next,
            Err(error) => return Err(error),
        };
        while next <= now
            invariant
                pattern == self.schedule.spec_pattern(),
                zone == self.schedule.spec_zone(),
                in_calendar(last_due as int),
                due <= last_due <= now,
                last_due < next <= last_instant(),
                next_run(pattern, zone, last_due) == Ok::<i64, Seq<char>>(next),
                caught_up(pattern, zone, due, now) == caught_up(pattern, zone, last_due, now),
            decreases last_instant() - next,
        {
            last_due = next;
            next = match self.next(last_due) {
                Ok(next) => next,
                Err(error) => return Err(error),
            };
        }
        Ok((last_due, next))
    }

    /// Rings the job at `now`: hands back its next run and the run that is asked for.
    pub fn ring(&mut self, next: i64, now: i64) -> (result: RuntimeResult<(i64, Option<Dispatch>)>)
        requires
            in_calendar(next as int),
        ensures
            match result {
                Ok((following, dispatch)) => {
                    &&& rung(*old(self), next, now) == Ok::<
                        (CronJob, i64, Option<Dispatch>),
                        Seq<char>,
                    >((*final(self), following, dispatch))
                    &&& in_calendar(following as int)
                    &&& following > now
                },
                Err(error) => {
                    &&& rung(*old(self), next, now) is Err
                    &&& error@ == RuntimeErrorView::InvalidConfiguration(
                        rung(*old(self), next, now)->Err_0,
                    )
                    &&& *final(self) == *old(self)
                },
            },
    {
        if next > now {
            return Ok((next, None));
        }
        let (last_due, following) = match self.catch_up(next, now) {
            Ok(found) => found,
            Err(error) => return Err(error),
        };
        if last_due == next || self.missed_run_policy == ScheduleMissedRunPolicy::FireOnce {
            let dispatch = self.dispatch(last_due);
            Ok((following, dispatch))
        } else {
            Ok((following, None))
        }
    }
}

/// However many runs were missed, ringing a job asks for at most one, and never for
/// one that lies in the future; the next run lies in the future.
pub proof fn law_ring_asks_for_one_due_run(job: CronJob, next: i64, now: i64)
    requires
        rung(job, next, now) is Ok,
    ensures
        ({
            let (after, following, dispatch) = rung(job, next, now)->Ok_0;
            &&& following > now
            &&& dispatch matches Some(run) ==> next <= run.scheduled_at <= now
            &&& after.schedule == job.schedule
        }),
{
    if next <= now {
        lemma_caught_up(job.schedule.spec_pattern(), job.schedule.spec_zone(), next, now);
    }
}

/// A job that skips missed runs makes up for none: it runs only if exactly one run
/// was due.
pub proof fn law_missed_runs_are_skipped(job: CronJob, next: i64, now: i64)
    requires
        rung(job, next, now) is Ok,
        job.missed_run_policy == ScheduleMissedRunPolicy::Skip,
    ensures
        rung(job, next, now)->Ok_0.2 matches Some(run) ==> run.scheduled_at == next,
{
}

/// A job that must not overlap is never asked to run while a run is going on.
pub proof fn law_no_overlap(job: CronJob, next: i64, now: i64)
    requires
        rung(job, next, now) is Ok,
        job.overlap_policy == ScheduleOverlapPolicy::Skip,
        job.running,
    ensures
        rung(job, next, now)->Ok_0.2 is None,
        rung(job, next, now)->Ok_0.0.running,
{
}

/// No run is asked for twice: of two rings in a row, the second asks for a later run
/// than the first.
pub proof fn law_runs_move_on(job: CronJob, next: i64, now: i64, later: i64)
    requires
        rung(job, next, now) is Ok,
        rung(rung(job, next, now)->Ok_0.0, rung(job, next, now)->Ok_0.1, later) is Ok,
    ensures
        ({
            let (after, following, first) = rung(job, next, now)->Ok_0;
            let second = rung(after, following, later)->Ok_0.2;
            first is Some && second is Some ==> first->0.scheduled_at < second->0.scheduled_at
        }),
{
    law_ring_asks_for_one_due_run(job, next, now);
    let (after, following, _) = rung(job, next, now)->Ok_0;
    law_ring_asks_for_one_due_run(after, following, later);
}

/// What happens to a job over time.
pub ghost enum JobEvent {
    /// The job is rung.
    Rung { next: i64, now: i64 },
    /// The end of a run is reported.
    Finished,
}

/// A job after some events, with the number of runs that were asked for and the number
/// of ends that were reported.
pub open spec fn job_after(job: CronJob, events: Seq<JobEvent>) -> (CronJob, nat, nat)
    decreases events.len(),
{
    if events.len() == 0 {
        (job, 0, 0)
    } else {
        let (before, asked, ended) = job_after(job, events.drop_last());
        match events.last() {
            JobEvent::Rung { next, now } => match rung(before, next, now) {
                Ok((after, _, Some(_))) => (after, asked + 1, ended),
                Ok((after, _, None)) => (after, asked, ended),
                Err(_) => (before, asked, ended),
            },
            JobEvent::Finished => (CronJob { running: false, ..before }, asked, ended + 1),
        }
    }
}

/// Whether ends are reported only of runs that were asked for.
pub open spec fn ends_reported(job: CronJob, events: Seq<JobEvent>) -> bool
    decreases events.len(),
{
    events.len() > 0 ==> {
        let (_, asked, ended) = job_after(job, events.drop_last());
        &&& ends_reported(job, events.drop_last())
        &&& events.last() is Finished ==> ended < asked
    }
}

/// However a job that must not overlap is rung, at most one of its runs is going on at
/// any time, and the job knows whether one is.
pub proof fn law_one_run_at_a_time(job: CronJob, events: Seq<JobEvent>)
    requires
        job.overlap_policy == ScheduleOverlapPolicy::Skip,
        !job.running,
        ends_reported(job, events),
    ensures
        ({
            let (after, asked, ended) = job_after(job, events);
            &&& asked - ended == (if after.running {
                1int
            } else {
                0
            })
            &&& after.overlap_policy == ScheduleOverlapPolicy::Skip
        }),
    decreases events.len(),
{
    if events.len() > 0 {
        law_one_run_at_a_time(job, events.drop_last());
    }
}

proof fn lemma_caught_up(schedule: Seq<char>, zone: Seq<char>, due: i64, now: i64)
    requires
        due <= now,
        caught_up(schedule, zone, due, now) is Ok,
    ensures
        due <= caught_up(schedule, zone, due, now)->Ok_0.0 <= now,
        caught_up(schedule, zone, due, now)->Ok_0.1 > now,
    decreases last_instant() - due,
{
    match next_run(schedule, zone, due) {
        Ok(next) => {
            if next <= now {
                lemma_caught_up(schedule, zone, next, now);
            }
        },
        Err(_) => {},
    }
}

/// The run of a schedule that comes `count` runs after `from`, if the schedule gets there.
pub open spec fn nth_run(schedule: Seq<char>, zone: Seq<char>, from: i64, count: nat) -> Option<i64>
    decreases count,
{
    if count == 0 {
        Some(from)
    } else {
        match nth_run(schedule, zone, from, (count - 1) as nat) {
            Some(run) => match next_run(schedule, zone, run) {
                Ok(next) => Some(next),
                Err(_) => None,
            },
            None => None,
        }
    }
}

proof fn lemma_nth_run_shift(schedule: Seq<char>, zone: Seq<char>, from: i64, second: i64, count: nat)
    requires
        next_run(schedule, zone, from) == Ok::<i64, Seq<char>>(second),
    ensures
        nth_run(schedule, zone, from, count + 1) == nth_run(schedule, zone, second, count),
    decreases count,
{
    if count == 0 {
        assert(nth_run(schedule, zone, from, 0) == Some(from));
    } else {
        lemma_nth_run_shift(schedule, zone, from, second, (count - 1) as nat);
    }
}

proof fn lemma_caught_up_by_runs(schedule: Seq<char>, zone: Seq<char>, due: i64, now: i64) -> (count:
    nat)
    requires
        due <= now,
        caught_up(schedule, zone, due, now) is Ok,
    ensures
        nth_run(schedule, zone, due, count) == Some(caught_up(schedule, zone, due, now)->Ok_0.0),
        nth_run(schedule, zone, due, count + 1) == Some(
            caught_up(schedule, zone, due, now)->Ok_0.1,
        ),
        caught_up(schedule, zone, due, now)->Ok_0.0 == due <==> count == 0,
        count == 0 <==> next_run(schedule, zone, due)->Ok_0 > now,
        next_run(schedule, zone, due) is Ok,
        due <= caught_up(schedule, zone, due, now)->Ok_0.0 <= now,
        now < caught_up(schedule, zone, due, now)->Ok_0.1,
    decreases last_instant() - due,
{
    lemma_caught_up(schedule, zone, due, now);
    let next = next_run(schedule, zone, due)->Ok_0;
    lemma_nth_run_shift(schedule, zone, due, next, 0);
    assert(nth_run(schedule, zone, due, 0) == Some(due));
    if next > now {
        0
    } else {
        let count = lemma_caught_up_by_runs(schedule, zone, next, now);
        lemma_nth_run_shift(schedule, zone, due, next, count);
        lemma_nth_run_shift(schedule, zone, due, next, count + 1);
        count + 1
    }
}

/// What a ring of a due job comes to. The runs that are due by `now` are counted from
/// `next` on; the job's next run is the first after `now`. A job that may run is asked for
/// the last of the due runs if it is the only one or missed runs are made up for, whatever
/// the policy on overlaps is, and for none otherwise. A job may run unless a run is going
/// on that must not be overlapped. The run is to be reported if and only if it must not be
/// overlapped, and the job is marked as running just then; nothing else of it changes.
pub proof fn law_due_job_is_asked_to_run(job: CronJob, next: i64, now: i64)
    requires
        next <= now,
        rung(job, next, now) is Ok,
    ensures
        ({
            let (after, following, dispatch) = rung(job, next, now)->Ok_0;
            let pattern = job.schedule.spec_pattern();
            let zone = job.schedule.spec_zone();
            let skips = job.overlap_policy == ScheduleOverlapPolicy::Skip;
            let may_run = !(skips && job.running);
            &&& exists|missed: nat|
                {
                    &&& nth_run(pattern, zone, next, missed + 1) == Some(following)
                    &&& following > now
                    &&& (#[trigger] nth_run(pattern, zone, next, missed)) is Some
                    &&& nth_run(pattern, zone, next, missed)->0 <= now
                    &&& may_run && (missed == 0 || job.missed_run_policy
                        == ScheduleMissedRunPolicy::FireOnce) <==> dispatch is Some
                    &&& dispatch matches Some(run) ==> {
                        &&& nth_run(pattern, zone, next, missed) == Some(run.scheduled_at)
                        &&& run.endpoint_id == job.endpoint_id
                        &&& run.guarded == skips
                        &&& missed == 0 <==> run.scheduled_at == next
                    }
                    &&& missed == 0 <==> next_run(pattern, zone, next)->Ok_0 > now
                }
            &&& after == (CronJob { running: job.running || (dispatch is Some && skips), ..job })
        }),
{
    let pattern = job.schedule.spec_pattern();
    let zone = job.schedule.spec_zone();
    let missed = lemma_caught_up_by_runs(pattern, zone, next, now);
    assert(nth_run(pattern, zone, next, missed) is Some);
}

/// A job that makes up for missed runs and may run is asked for exactly one run, the last
/// one that is due, under either policy on overlaps; so is a job of which only one run is
/// due.
pub proof fn law_missed_runs_are_made_up_for(job: CronJob, next: i64, now: i64)
    requires
        next <= now,
        rung(job, next, now) is Ok,
        !job.running || job.overlap_policy == ScheduleOverlapPolicy::Allow,
        job.missed_run_policy == ScheduleMissedRunPolicy::FireOnce || next_run(
            job.schedule.spec_pattern(),
            job.schedule.spec_zone(),
            next,
        )->Ok_0 > now,
    ensures
        ({
            let (_, following, dispatch) = rung(job, next, now)->Ok_0;
            &&& dispatch matches Some(run) && {
                &&& next <= run.scheduled_at <= now
                &&& next_run(
                    job.schedule.spec_pattern(),
                    job.schedule.spec_zone(),
                    run.scheduled_at,
                ) == Ok::<i64, Seq<char>>(following)
            }
            &&& following > now
        }),
{
    let pattern = job.schedule.spec_pattern();
    let zone = job.schedule.spec_zone();
    let missed = lemma_caught_up_by_runs(pattern, zone, next, now);
}

/// A job that is not due stays as it is; ringing it fails only where the schedule has no
/// run after one that is due, with the text of that failure.
pub proof fn law_ring_fails_only_with_the_schedule(job: CronJob, next: i64, now: i64)
    ensures
        next > now ==> rung(job, next, now) == Ok::<(CronJob, i64, Option<Dispatch>), Seq<char>>(
            (job, next, None),
        ),
        rung(job, next, now) matches Err(text) ==> exists|due: i64|
            next <= due <= now && (match #[trigger] next_run(
                job.schedule.spec_pattern(),
                job.schedule.spec_zone(),
                due,
            ) {
                Err(failed) => failed == text,
                Ok(found) => !(due < found <= last_instant()),
            }),
{
    if next <= now && rung(job, next, now) is Err {
        lemma_caught_up_fails(job.schedule.spec_pattern(), job.schedule.spec_zone(), next, now);
    }
}

proof fn lemma_caught_up_fails(schedule: Seq<char>, zone: Seq<char>, due: i64, now: i64)
    requires
        due <= now,
        caught_up(schedule, zone, due, now) is Err,
    ensures
        exists|at: i64|
            due <= at <= now && (match #[trigger] next_run(schedule, zone, at) {
                Err(failed) => failed == caught_up(schedule, zone, due, now)->Err_0,
                Ok(found) => !(at < found <= last_instant()),
            }),
    decreases last_instant() - due,
{
    match next_run(schedule, zone, due) {
        Err(_) => {},
        Ok(next) => {
            if next <= now && due < next <= last_instant() {
                lemma_caught_up_fails(schedule, zone, next, now);
                let at = choose|at: i64|
                    next <= at <= now && (match #[trigger] next_run(schedule, zone, at) {
                        Err(failed) => failed == caught_up(schedule, zone, next, now)->Err_0,
                        Ok(found) => !(at < found <= last_instant()),
                    });
                assert(due <= at <= now);
            }
        },
    }
}

} // verus!
