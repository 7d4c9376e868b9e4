//! The cron data source: a scheduler for the jobs of its endpoints.
use vstd::prelude::*;
use vstd::string::*;

use crate::datasource::cron::job::{rung, CronJob, Dispatch};
use crate::datasource::cron::schedule::{in_calendar, next_run};
use crate::runtime::config::{
    CronEndpointConfig, RuntimeConfig, RuntimeDataConnectorConfig, RuntimeEndpointConfig,
};
use crate::runtime::environment::RuntimeEnvironment;
use crate::runtime::error::{RuntimeError, RuntimeErrorView, RuntimeResult};
use crate::runtime::text::{debug_text, integer, integer_text, quoted};

verus! {

/// The cron data source of a connector. While it runs, `next` holds when each of the
/// jobs that it started with runs next.
pub struct CronDataSource {
    pub id: i32,
    pub name: String,
    pub jobs: Vec<CronJob>,
    pub next: Vec<i64>,
    pub started: bool,
}

/// Whether a job of the endpoint is there.
pub open spec fn has_job(jobs: Seq<CronJob>, endpoint_id: i32) -> bool {
    exists|i: int| 0 <= i < jobs.len() && (#[trigger] jobs[i]).endpoint_id == endpoint_id
}

/// The earliest of some instants.
pub open spec fn is_earliest(instants: Seq<i64>, earliest: i64) -> bool {
    &&& instants.contains(earliest)
    &&& forall|i: int| 0 <= i < instants.len() ==> earliest <= #[trigger] instants[i]
}

/// The runs that the first `count` jobs are asked for at `now`, in their order.
pub open spec fn runs_asked(jobs: Seq<CronJob>, next: Seq<i64>, now: i64, count: int) -> Seq<
    Dispatch,
>
    decreases count,
{
    if count <= 0 {
        Seq::empty()
    } else {
        let before = runs_asked(jobs, next, now, count - 1);
        match rung(jobs[count - 1], next[count - 1], now) {
            Ok((_, _, Some(dispatch))) => before.push(dispatch),
            _ => before,
        }
    }
}

/// The first job from `from` on that cannot be rung at `now`, or the number of jobs.
pub open spec fn first_unrung(jobs: Seq<CronJob>, next: Seq<i64>, now: i64, from: int) -> int
    decreases next.len() - from,
{
    if from >= next.len() {
        next.len() as int
    } else if rung(jobs[from], next[from], now) is Err {
        from
    } else {
        first_unrung(jobs, next, now, from + 1)
    }
}

/// What is wrong with the configuration of an endpoint, if anything is.
pub open spec fn endpoint_error(config: RuntimeConfig, connector: i32, id: i32) -> Option<
    Seq<char>,
> {
    match config.spec_endpoint(id) {
        None => Some("cron endpoint "@ + integer_text(id as int) + " not found"@),
        Some(RuntimeEndpointConfig::Cron(endpoint)) => if endpoint.id_data_connector
            != connector {
            Some(
                "cron endpoint "@ + debug_text(endpoint.name@) + " belongs to connector "@
                    + integer_text(endpoint.id_data_connector as int) + ", not "@ + integer_text(
                    connector as int,
                ),
            )
        } else {
            None
        },
        Some(_) => Some("endpoint "@ + integer_text(id as int) + " is not cron"@),
    }
}

impl CronDataSource {
    /// No endpoint has two jobs, and every next run lies in the calendar.
    pub open spec fn wf(&self) -> bool {
        &&& forall|i: int, j: int|
            0 <= i < j < self.jobs@.len() ==> (#[trigger] self.jobs@[i]).endpoint_id != (
            #[trigger] self.jobs@[j]).endpoint_id
        &&& self.next@.len() <= self.jobs@.len()
        &&& forall|i: int|
            0 <= i < self.next@.len() ==> in_calendar(#[trigger] self.next@[i] as int)
    }

    /// The data source of a connector.
    pub fn new(connector_id: i32, environment: &RuntimeEnvironment) -> (result: RuntimeResult<
        CronDataSource,
    >)
        ensures
            match environment@.config.spec_data_connector(connector_id) {
                None => result is Err && result->Err_0@ == RuntimeErrorView::InvalidConfiguration(
                    "cron data connector "@ + integer_text(connector_id as int) + " not found"@,
                ),
                Some(RuntimeDataConnectorConfig::Cron(connector)) => result matches Ok(source) && {
                    &&& source.wf()
                    &&& source.id == connector_id
                    &&& source.name@ == connector.name@
                    &&& source.jobs@.len() == 0
                    &&& !source.started
                },
                Some(other) => result is Err && result->Err_0@
                    == RuntimeErrorView::InvalidConfiguration(
                    "data connector "@ + debug_text(other.spec_name()@) + " is not cron"@,
                ),
            },
    {
        match environment.runtime_config().data_connector_by_id(connector_id) {
            None => {
                let mut text = String::from_str("cron data connector ");
                text.append(integer(connector_id).as_str());
                text.append(" not found");
                Err(RuntimeError::InvalidConfiguration(text))
            },
            Some(RuntimeDataConnectorConfig::Cron(connector)) => Ok(
                CronDataSource {
                    id: connector_id,
                    name: connector.name.clone(),
                    jobs: Vec::new(),
                    next: Vec::new(),
                    started: false,
                },
            ),
            Some(other) => {
                let mut text = String::from_str("data connector ");
                text.append(quoted(other.name().as_str()).as_str());
                text.append(" is not cron");
                Err(RuntimeError::InvalidConfiguration(text))
            },
        }
    }

    /// Adds the job of an endpoint, which can have only one. A job that is added while
    /// the data source runs is served from the next start on.
    pub fn add_job(&mut self, job: CronJob) -> (result: RuntimeResult<()>)
        requires
            old(self).wf(),
        ensures
            final(self).wf(),
            final(self).id == old(self).id,
            final(self).name == old(self).name,
            final(self).next@ == old(self).next@,
            final(self).started == old(self).started,
            match result {
                Ok(_) => {
                    &&& !has_job(old(self).jobs@, job.endpoint_id)
                    &&& final(self).jobs@ == old(self).jobs@.push(job)
                },
                Err(error) => {
                    &&& has_job(old(self).jobs@, job.endpoint_id)
                    &&& error@ == RuntimeErrorView::DuplicateResource(job.endpoint_name@)
                    &&& final(self).jobs@ == old(self).jobs@
                },
            },
    {
        let mut i: usize = 0;
        while i < self.jobs.len()
            invariant
                i <= self.jobs@.len(),
                *self == *old(self),
                old(self).wf(),
                forall|j: int|
                    0 <= j < i ==> (#[trigger] self.jobs@[j]).endpoint_id != job.endpoint_id,
            decreases self.jobs@.len() - i,
        {
            if self.jobs[i].endpoint_id == job.endpoint_id {
                return Err(RuntimeError::DuplicateResource(job.endpoint_name));
            }
            i = i + 1;
        }
        self.jobs.push(job);
        Ok(())
    }

    /// The configuration of an endpoint of this data source.
    pub fn endpoint_config(&self, endpoint_id: i32, environment: &RuntimeEnvironment) -> (result:
        RuntimeResult<CronEndpointConfig>)
        ensures
            match result {
                Ok(config) => {
                    &&& endpoint_error(environment@.config, self.id, endpoint_id) is None
                    &&& environment@.config.spec_endpoint(endpoint_id) == Some(
                        RuntimeEndpointConfig::Cron(config),
                    )
                },
                Err(error) => {
                    let failure = endpoint_error(environment@.config, self.id, endpoint_id);
                    &&& failure is Some
                    &&& error@ == RuntimeErrorView::InvalidConfiguration(failure->0)
                },
            },
    {
        match environment.runtime_config().endpoint_by_id(endpoint_id) {
            None => {
                let mut text = String::from_str("cron endpoint ");
                text.append(integer(endpoint_id).as_str());
                text.append(" not found");
                Err(RuntimeError::InvalidConfiguration(text))
            },
            Some(RuntimeEndpointConfig::Cron(config)) => {
                if config.id_data_connector != self.id {
                    let mut text = String::from_str("cron endpoint ");
                    text.append(quoted(config.name.as_str()).as_str());
                    text.append(" belongs to connector ");
                    text.append(integer(config.id_data_connector).as_str());
                    text.append(", not ");
                    text.append(integer(self.id).as_str());
                    return Err(RuntimeError::InvalidConfiguration(text));
                }
                Ok(config.clone())
            },
            Some(_) => {
                let mut text = String::from_str("endpoint ");
                text.append(integer(endpoint_id).as_str());
                text.append(" is not cron");
                Err(RuntimeError::InvalidConfiguration(text))
            },
        }
    }

    /// Starts the scheduler: every job gets its first run after `now`. A job without
    /// one fails the start.
    pub fn start(&mut self, now: i64) -> (result: RuntimeResult<()>)
        requires
            old(self).wf(),
            in_calendar(now as int),
        ensures
            final(self).wf(),
            final(self).id == old(self).id,
            final(self).name == old(self).name,
            final(self).jobs@ == old(self).jobs@,
            match result {
                Ok(_) => {
                    &&& !old(self).started
                    &&& final(self).started
                    &&& final(self).next@.len() == old(self).jobs@.len()
                    &&& forall|i: int|
                        0 <= i < old(self).jobs@.len() ==> next_run(
                            old(self).jobs@[i].schedule.spec_pattern(),
                            old(self).jobs@[i].schedule.spec_zone(),
                            now,
                        ) == Ok::<i64, Seq<char>>(#[trigger] final(self).next@[i])
                },
                Err(error) => {
                    &&& *final(self) == *old(self)
                    &&& if old(self).started {
                        error@ == RuntimeErrorView::ResourceAlreadyStarted(old(self).name@)
                    } else {
                        exists|i: int|
                            0 <= i < old(self).jobs@.len() && #[trigger] failing_job(
                                old(self).jobs@[i],
                                now,
                            ) == Some(error@) && forall|j: int|
                                0 <= j < i ==> #[trigger] failing_job(old(self).jobs@[j], now)
                                    is None
                    }
                },
            },
    {
        if self.started {
            return Err(RuntimeError::ResourceAlreadyStarted(self.name.clone()));
        }
        let mut next: Vec<i64> = Vec::new();
        let mut i: usize = 0;
        while i < self.jobs.len()
            invariant
                i <= self.jobs@.len(),
                *self == *old(self),
                old(self).wf(),
                !old(self).started,
                in_calendar(now as int),
                next@.len() == i,
                forall|j: int|
                    0 <= j < i ==> {
                        &&& next_run(
                            self.jobs@[j].schedule.spec_pattern(),
                            self.jobs@[j].schedule.spec_zone(),
                            now,
                        ) == Ok::<i64, Seq<char>>(#[trigger] next@[j])
                        &&& in_calendar(next@[j] as int)
                    },
                forall|j: int| 0 <= j < i ==> #[trigger] failing_job(self.jobs@[j], now) is None,
            decreases self.jobs@.len() - i,
        {
            match self.jobs[i].next(now) {
                Ok(run) => next.push(run),
                Err(error) => {
                    assert(failing_job(old(self).jobs@[i as int], now) == Some(error@));
                    return Err(error);
                },
            }
            i = i + 1;
        }
        self.next = next;
        self.started = true;
        Ok(())
    }

    /// When the next run of any job is due. A scheduler without jobs waits until it is
    /// stopped.
    pub fn earliest(&self) -> (earliest: Option<i64>)
        ensures
            match earliest {
                Some(instant) => is_earliest(self.next@, instant),
                None => self.next@.len() == 0,
            },
    {
        if self.next.len() == 0 {
            return None;
        }
        let mut earliest: i64 = self.next[0];
        let mut i: usize = 1;
        while i < self.next.len()
            invariant
                1 <= i <= self.next@.len(),
                self.next@.contains(earliest),
                forall|j: int| 0 <= j < i ==> earliest <= #[trigger] self.next@[j],
            decreases self.next@.len() - i,
        {
            if self.next[i] < earliest {
                earliest = self.next[i];
            }
            i = i + 1;
        }
        Some(earliest)
    }

    /// Rings every job at `now`, in their order, and hands back the runs that are
    /// asked for. A job that cannot be rung ends the scheduler: no run is made, and no
    /// job is marked as running on its account.
    pub fn fire(&mut self, now: i64) -> (result: RuntimeResult<Vec<Dispatch>>)
        requires
            old(self).wf(),
        ensures
            final(self).wf(),
            final(self).id == old(self).id,
            final(self).name == old(self).name,
            final(self).started == old(self).started,
            ({
                let jobs = old(self).jobs@;
                let next = old(self).next@;
                let stuck = first_unrung(jobs, next, now, 0);
                &&& 0 <= stuck <= next.len()
                &&& match result {
                    Ok(runs) => {
                        &&& stuck == next.len()
                        &&& runs@ == runs_asked(jobs, next, now, next.len() as int)
                        &&& final(self).jobs@.len() == jobs.len()
                        &&& final(self).next@.len() == next.len()
                        &&& forall|i: int|
                            0 <= i < next.len() ==> rung(jobs[i], next[i], now)->Ok_0.0
                                == #[trigger] final(self).jobs@[i]
                        &&& forall|i: int|
                            0 <= i < next.len() ==> rung(jobs[i], next[i], now)->Ok_0.1
                                == #[trigger] final(self).next@[i]
                        &&& forall|i: int|
                            next.len() <= i < jobs.len() ==> #[trigger] final(self).jobs@[i]
                                == jobs[i]
                    },
                    Err(error) => {
                        &&& stuck < next.len()
                        &&& error@ == RuntimeErrorView::InvalidConfiguration(
                            rung(jobs[stuck], next[stuck], now)->Err_0,
                        )
                        &&& final(self).jobs@ == jobs
                        &&& final(self).next@ == next
                    },
                }
            }),
    {
        let ghost jobs = self.jobs@;
        let ghost next = self.next@;
        let mut runs: Vec<Dispatch> = Vec::new();
        let mut following: Vec<i64> = Vec::new();
        let mut were_running: Vec<bool> = Vec::new();
        let mut i: usize = 0;
        assert(runs@ =~= runs_asked(jobs, next, now, 0));
        while i < self.next.len()
            invariant
                old(self).wf(),
                jobs == old(self).jobs@,
                next == old(self).next@,
                i <= next.len(),
                next.len() <= jobs.len(),
                self.id == old(self).id,
                self.name == old(self).name,
                self.started == old(self).started,
                self.jobs@.len() == jobs.len(),
                self.next@ == next,
                following@.len() == i,
                were_running@.len() == i,
                first_unrung(jobs, next, now, 0) == first_unrung(jobs, next, now, i as int),
                forall|j: int|
                    0 <= j < i ==> rung(jobs[j], next[j], now)->Ok_0.0
                        == #[trigger] self.jobs@[j],
                forall|j: int|
                    0 <= j < i ==> jobs[j] == (CronJob {
                        running: were_running@[j],
                        ..#[trigger] self.jobs@[j]
                    }),
                forall|j: int|
                    0 <= j < i ==> rung(jobs[j], next[j], now)->Ok_0.1 == #[trigger] following@[j]
                        && in_calendar(following@[j] as int),
                forall|j: int| i <= j < jobs.len() ==> #[trigger] self.jobs@[j] == jobs[j],
                runs@ == runs_asked(jobs, next, now, i as int),
            decreases next.len() - i,
        {
            let due: i64 = self.next[i];
            assert(in_calendar(next[i as int] as int));
            let ghost before = self.jobs@;
            were_running.push(self.jobs[i].running);
            let job = &mut self.jobs[i];
            let rang = job.ring(due, now);
            match rang {
                Ok((later, dispatch)) => {
                    following.push(later);
                    match dispatch {
                        Some(run) => runs.push(run),
                        None => {},
                    }
                    proof {
                        assert(self.jobs@ =~= before.update(i as int, self.jobs@[i as int]));
                        assert(runs@ =~= runs_asked(jobs, next, now, i + 1));
                    }
                },
                Err(error) => {
                    assert(self.jobs@ =~= before);
                    self.unmark(were_running, Ghost(jobs), i);
                    return Err(error);
                },
            }
            i = i + 1;
        }
        self.next = following;
        proof {
            self.lemma_still_wf(old(self));
        }
        Ok(runs)
    }

    /// Gives the first `count` jobs back the marks that they had.
    fn unmark(&mut self, were_running: Vec<bool>, Ghost(jobs): Ghost<Seq<CronJob>>, count: usize)
        requires
            count <= were_running@.len(),
            count <= jobs.len(),
            old(self).jobs@.len() == jobs.len(),
            forall|j: int|
                0 <= j < count ==> jobs[j] == (CronJob {
                    running: were_running@[j],
                    ..#[trigger] old(self).jobs@[j]
                }),
            forall|j: int| count <= j < jobs.len() ==> #[trigger] old(self).jobs@[j] == jobs[j],
        ensures
            final(self).jobs@ == jobs,
            final(self).next == old(self).next,
            final(self).id == old(self).id,
            final(self).name == old(self).name,
            final(self).started == old(self).started,
    {
        let mut i: usize = 0;
        while i < count
            invariant
                i <= count <= were_running@.len(),
                count <= jobs.len(),
                self.jobs@.len() == jobs.len(),
                self.next == old(self).next,
                self.id == old(self).id,
                self.name == old(self).name,
                self.started == old(self).started,
                forall|j: int| 0 <= j < i ==> #[trigger] self.jobs@[j] == jobs[j],
                forall|j: int|
                    i <= j < count ==> jobs[j] == (CronJob {
                        running: were_running@[j],
                        ..#[trigger] self.jobs@[j]
                    }),
                forall|j: int| count <= j < jobs.len() ==> #[trigger] self.jobs@[j] == jobs[j],
            decreases count - i,
        {
            let ghost before = self.jobs@;
            let job = &mut self.jobs[i];
            job.running = were_running[i];
            assert(self.jobs@ =~= before.update(i as int, self.jobs@[i as int]));
            i = i + 1;
        }
        assert(self.jobs@ =~= jobs);
    }

    proof fn lemma_still_wf(&self, before: &Self)
        requires
            before.wf(),
            self.jobs@.len() == before.jobs@.len(),
            self.next@.len() == before.next@.len(),
            forall|i: int|
                0 <= i < self.jobs@.len() ==> (#[trigger] self.jobs@[i]).endpoint_id
                    == before.jobs@[i].endpoint_id,
            forall|i: int|
                0 <= i < self.next@.len() ==> in_calendar(#[trigger] self.next@[i] as int),
        ensures
            self.wf(),
    {
        assert forall|i: int, j: int| 0 <= i < j < self.jobs@.len() implies (
        #[trigger] self.jobs@[i]).endpoint_id != (#[trigger] self.jobs@[j]).endpoint_id by {
            assert(before.jobs@[i].endpoint_id != before.jobs@[j].endpoint_id);
        }
    }

    /// Takes the end of a run that was to be reported.
    pub fn run_finished(&mut self, index: usize)
        requires
            old(self).wf(),
            index < old(self).jobs@.len(),
        ensures
            final(self).wf(),
            final(self).jobs@ == old(self).jobs@.update(
                index as int,
                (CronJob { running: false, ..old(self).jobs@[index as int] }),
            ),
            final(self).next@ == old(self).next@,
            final(self).id == old(self).id,
            final(self).name == old(self).name,
            final(self).started == old(self).started,
    {
        let job = &mut self.jobs[index];
        job.finished();
        proof {
            self.lemma_still_wf(old(self));
        }
    }

    /// Stops the scheduler with what it came to. The data source may start again.
    pub fn stop(&mut self, scheduler: RuntimeResult<()>) -> (result: RuntimeResult<()>)
        requires
            old(self).wf(),
        ensures
            final(self).wf(),
            !final(self).started,
            final(self).next@.len() == 0,
            final(self).jobs@ == old(self).jobs@,
            final(self).id == old(self).id,
            final(self).name == old(self).name,
            result == (if old(self).started {
                scheduler
            } else {
                Ok(())
            }),
    {
        let was_started: bool = self.started;
        self.started = false;
        self.next.clear();
        if was_started {
            scheduler
        } else {
            Ok(())
        }
    }
}

/// Why a job has no run after `now`, if it has none.
pub open spec fn failing_job(job: CronJob, now: i64) -> Option<RuntimeErrorView> {
    match next_run(job.schedule.spec_pattern(), job.schedule.spec_zone(), now) {
        Ok(_) => None,
        Err(text) => Some(RuntimeErrorView::InvalidConfiguration(text)),
    }
}

/// The first job that cannot be rung is the first: all jobs before it can be, and it
/// cannot, unless there is none.
pub proof fn law_first_unrung_is_the_first(jobs: Seq<CronJob>, next: Seq<i64>, now: i64, from: int)
    requires
        0 <= from <= next.len(),
    ensures
        ({
            let stuck = first_unrung(jobs, next, now, from);
            &&& from <= stuck <= next.len()
            &&& forall|i: int|
                from <= i < stuck ==> (#[trigger] rung(jobs[i], next[i], now)) is Ok
            &&& stuck < next.len() ==> rung(jobs[stuck], next[stuck], now) is Err
        }),
    decreases next.len() - from,
{
    if from < next.len() && rung(jobs[from], next[from], now) is Ok {
        law_first_unrung_is_the_first(jobs, next, now, from + 1);
    }
}

/// A tick asks for just the runs that its jobs ask for: each job that asks for one has it
/// made, no job has two, and the runs are in the order of the jobs.
pub proof fn law_tick_asks_for_the_runs_of_its_jobs(
    jobs: Seq<CronJob>,
    next: Seq<i64>,
    now: i64,
    count: int,
)
    requires
        0 <= count <= next.len(),
        next.len() <= jobs.len(),
        forall|i: int| 0 <= i < count ==> (#[trigger] rung(jobs[i], next[i], now)) is Ok,
    ensures
        ({
            let runs = runs_asked(jobs, next, now, count);
            &&& runs.len() <= count
            &&& forall|i: int|
                0 <= i < count ==> ((#[trigger] rung(jobs[i], next[i], now))->Ok_0.2 matches Some(
                    run,
                ) ==> runs.contains(run))
            &&& forall|k: int|
                0 <= k < runs.len() ==> exists|i: int|
                    0 <= i < count && rung(jobs[i], next[i], now)->Ok_0.2 == Some(
                        #[trigger] runs[k],
                    )
            &&& count > 0 ==> runs_asked(jobs, next, now, count - 1).is_prefix_of(runs)
            &&& count > 0 ==> runs.len() == runs_asked(jobs, next, now, count - 1).len() + (if rung(
                jobs[count - 1],
                next[count - 1],
                now,
            )->Ok_0.2 is Some {
                1int
            } else {
                0
            })
        }),
    decreases count,
{
    if count > 0 {
        law_tick_asks_for_the_runs_of_its_jobs(jobs, next, now, count - 1);
        let before = runs_asked(jobs, next, now, count - 1);
        let runs = runs_asked(jobs, next, now, count);
        assert(before =~= runs.subrange(0, before.len() as int));
        assert forall|i: int| 0 <= i < count implies ((#[trigger] rung(
            jobs[i],
            next[i],
            now,
        ))->Ok_0.2 matches Some(run) ==> runs.contains(run)) by {
            if let Some(run) = rung(jobs[i], next[i], now)->Ok_0.2 {
                if i < count - 1 {
                    assert(before.contains(run));
                    let k = choose|k: int| 0 <= k < before.len() && before[k] == run;
                    assert(runs[k] == run);
                } else {
                    assert(runs.last() == run);
                }
            }
        }
        assert forall|k: int| 0 <= k < runs.len() implies exists|i: int|
            0 <= i < count && rung(jobs[i], next[i], now)->Ok_0.2 == Some(#[trigger] runs[k]) by {
            if k < before.len() {
                let i = choose|i: int|
                    0 <= i < count - 1 && rung(jobs[i], next[i], now)->Ok_0.2 == Some(before[k]);
                assert(rung(jobs[i], next[i], now)->Ok_0.2 == Some(runs[k]));
            } else {
                assert(rung(jobs[count - 1], next[count - 1], now)->Ok_0.2 == Some(runs[k]));
            }
        }
    }
}

/// An endpoint is a cron endpoint of a connector if and only if its configuration says
/// so; a job can start if and only if its schedule has a run after `now`, and is refused
/// with the text of the schedule otherwise.
pub proof fn law_cron_configuration_is_checked(
    config: RuntimeConfig,
    connector: i32,
    id: i32,
    job: CronJob,
    now: i64,
)
    ensures
        endpoint_error(config, connector, id) is None <==> (config.spec_endpoint(id) matches Some(
            RuntimeEndpointConfig::Cron(endpoint),
        ) && endpoint.id_data_connector == connector),
        config.spec_endpoint(id) is None ==> endpoint_error(config, connector, id) == Some(
            "cron endpoint "@ + integer_text(id as int) + " not found"@,
        ),
        failing_job(job, now) is None <==> next_run(
            job.schedule.spec_pattern(),
            job.schedule.spec_zone(),
            now,
        ) is Ok,
        failing_job(job, now) matches Some(error) ==> error
            == RuntimeErrorView::InvalidConfiguration(
            next_run(job.schedule.spec_pattern(), job.schedule.spec_zone(), now)->Err_0,
        ),
{
}

/// The earliest of some instants is one of them, and none of them comes before it.
pub proof fn law_earliest_is_among_them(instants: Seq<i64>, earliest: i64, index: int)
    requires
        is_earliest(instants, earliest),
        0 <= index < instants.len(),
    ensures
        instants.contains(earliest),
        earliest <= instants[index],
{
}

} // verus!
