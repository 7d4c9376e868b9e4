//! The endpoints of a cron source.
use vstd::prelude::*;

use crate::datasource::cron::datasource::{endpoint_error, has_job, CronDataSource};
use crate::datasource::cron::job::{CronJob, Dispatch};
use crate::datasource::cron::schedule::{known_zone, schedule_error, Schedule};
use crate::datasource::endpoint::SetUp;
use crate::operators::input::{endpoint_of, input_endpoint, InputStream};
use crate::runtime::common::{Emission, MessageContext};
use crate::runtime::config::{CronEndpointConfig, RuntimeConfig};
use crate::runtime::environment::RuntimeEnvironment;
use crate::runtime::error::{RuntimeErrorView, RuntimeResult};
use crate::runtime::request::{
    follows, follows_empty, follows_push, group_tally, push_request_end, request_end, tally, two,
    Action, Kind, Metric,
};
use crate::runtime::stream::{emitted, Collected, Stream};

verus! {

/// What keeps the schedule.
#[derive(Clone, Copy, Debug, PartialEq, Eq, Structural)]
pub enum ScheduleBackend {
    Local,
}

/// A run, as a function hears of it. It was scheduled for a second since the epoch, and
/// fired at an instant in nanoseconds since the epoch.
pub struct ScheduleTrigger {
    pub endpoint_id: i32,
    pub endpoint_name: String,
    pub scheduled_at: i64,
    pub fired_at: i128,
    pub backend: ScheduleBackend,
}

/// What a service does at every run. Services implement it.
pub trait ScheduleEndpointFunction<T> {
    /// Takes a run and hands out messages.
    fn on_trigger(&self, context: MessageContext, trigger: ScheduleTrigger) -> Vec<Collected<T>>;
}

/// The endpoint of a cron source.
pub struct CronEndpointConsumer<T, F> {
    pub stream: Stream<T>,
    pub function: F,
    pub timed: bool,
}

/// The configuration of the endpoint of an input.
pub open spec fn cron_endpoint(config: RuntimeConfig, input: i32) -> CronEndpointConfig {
    config.spec_endpoint(input_endpoint(config, input))->0->Cron_0
}

/// The trigger of a run.
pub fn make_trigger(job: &CronJob, dispatch: &Dispatch, fired_at: i128) -> (trigger:
    ScheduleTrigger)
    ensures
        trigger.endpoint_id == job.endpoint_id,
        trigger.endpoint_name@ == job.endpoint_name@,
        trigger.scheduled_at == dispatch.scheduled_at,
        trigger.fired_at == fired_at,
        trigger.backend == ScheduleBackend::Local,
{
    ScheduleTrigger {
        endpoint_id: job.endpoint_id,
        endpoint_name: job.endpoint_name.clone(),
        scheduled_at: dispatch.scheduled_at,
        fired_at,
        backend: ScheduleBackend::Local,
    }
}

impl<T, F> CronEndpointConsumer<T, F> {
    /// The endpoint that the configuration gives to the input.
    pub fn id(&self, environment: &RuntimeEnvironment) -> (id: i32)
        ensures
            id == input_endpoint(environment@.config, self.stream.spec_id()),
    {
        endpoint_of(self.stream.id(), environment)
    }

    /// Writes what the function handed out for a run to the input's stream.
    pub fn emit(&self, collected: Vec<Collected<T>>) -> (emissions: Vec<Emission<T>>)
        ensures
            emitted(emissions@, self.stream, collected@),
    {
        self.stream.collector().out_all(collected)
    }

    /// Opens a run: it is active, and then the function hears of it.
    pub fn begin(&self, context: MessageContext, trigger: ScheduleTrigger) -> (actions: Vec<
        Action<ScheduleTrigger, (), ()>,
    >)
        ensures
            actions@ == two(
                Action::<ScheduleTrigger, (), ()>::Record(Metric::ActiveUp),
                Action::ConsumeMessage { context, value: trigger },
            ),
    {
        let mut actions: Vec<Action<ScheduleTrigger, (), ()>> = Vec::new();
        actions.push(Action::Record(Metric::ActiveUp));
        actions.push(Action::ConsumeMessage { context, value: trigger });
        assert(actions@ =~= two(
            Action::<ScheduleTrigger, (), ()>::Record(Metric::ActiveUp),
            Action::ConsumeMessage { context, value: trigger },
        ));
        actions
    }

    /// Closes a run once the function returned: it is no longer active and counts as a
    /// message.
    pub fn finish(&self) -> (actions: Vec<Action<ScheduleTrigger, (), ()>>)
        ensures
            actions@ == request_end::<ScheduleTrigger, (), ()>(self.timed, true),
    {
        let mut actions: Vec<Action<ScheduleTrigger, (), ()>> = Vec::new();
        push_request_end(&mut actions, self.timed, true);
        assert(actions@ =~= request_end::<ScheduleTrigger, (), ()>(self.timed, true));
        actions
    }

    /// Hands a run to the function and writes what it hands out to the input's stream.
    pub fn consume(&self, context: MessageContext, trigger: ScheduleTrigger) -> (emissions: Vec<
        Emission<T>,
    >) where F: ScheduleEndpointFunction<T>
        ensures
            exists|collected: Vec<Collected<T>>|
                #[trigger] call_ensures(
                    F::on_trigger,
                    (&self.function, context, trigger),
                    collected,
                ) && emitted(emissions@, self.stream, collected@),
    {
        let collected = self.function.on_trigger(context, trigger);
        self.emit(collected)
    }
}

/// Makes the endpoint of an input. An enabled endpoint gets a job, if its schedule and
/// time zone can be read and it has none yet; it is known as a consumer even if not.
pub fn make_croner_endpoint_consumer<T, R, E, C, F>(
    data_source: &mut CronDataSource,
    input: &InputStream<T, R, E, C>,
    function: F,
    environment: &mut RuntimeEnvironment,
    set_up: SetUp,
) -> (result: RuntimeResult<CronEndpointConsumer<T, F>>)
    requires
        old(data_source).wf(),
    ensures
        final(data_source).wf(),
        final(data_source).id == old(data_source).id,
        final(data_source).name == old(data_source).name,
        final(data_source).next@ == old(data_source).next@,
        final(data_source).started == old(data_source).started,
        ({
            let config = old(environment)@.config;
            let endpoint_id = input_endpoint(config, input.spec_stream().spec_id());
            let failure = endpoint_error(config, old(data_source).id, endpoint_id);
            let endpoint = cron_endpoint(config, input.spec_stream().spec_id());
            if failure is Some {
                &&& result is Err
                &&& result->Err_0@ == RuntimeErrorView::InvalidConfiguration(failure->0)
                &&& final(environment)@ == old(environment)@
                &&& final(data_source).jobs@ == old(data_source).jobs@
            } else if set_up.failure() is Some {
                &&& result is Err
                &&& set_up.failure() == Some(result->Err_0@)
                &&& final(environment)@ == old(environment)@
                &&& final(data_source).jobs@ == old(data_source).jobs@
            } else {
                &&& final(environment)@ == old(environment)@.with_consumer(endpoint_id)
                &&& result matches Ok(consumer) ==> {
                    &&& consumer.stream == input.spec_stream()
                    &&& consumer.function == function
                    &&& consumer.timed == old(environment)@.metrics
                }
                &&& if !endpoint.enabled {
                    &&& result is Ok
                    &&& final(data_source).jobs@ == old(data_source).jobs@
                } else if schedule_error(endpoint.schedule@) is Some {
                    &&& result is Err
                    &&& result->Err_0@ == RuntimeErrorView::InvalidConfiguration(
                        schedule_error(endpoint.schedule@)->0,
                    )
                    &&& final(data_source).jobs@ == old(data_source).jobs@
                } else if !known_zone(endpoint.timezone@) {
                    &&& result is Err
                    &&& result->Err_0@ == RuntimeErrorView::InvalidConfiguration(
                        "failed to parse timezone"@,
                    )
                    &&& final(data_source).jobs@ == old(data_source).jobs@
                } else if has_job(old(data_source).jobs@, endpoint.id) {
                    &&& result is Err
                    &&& result->Err_0@ == RuntimeErrorView::DuplicateResource(endpoint.name@)
                    &&& final(data_source).jobs@ == old(data_source).jobs@
                } else {
                    &&& result is Ok
                    &&& final(data_source).jobs@.len() == old(data_source).jobs@.len() + 1
                    &&& final(data_source).jobs@.drop_last() == old(data_source).jobs@
                    &&& ({
                        let job = final(data_source).jobs@.last();
                        &&& job.endpoint_id == endpoint.id
                        &&& job.endpoint_name == endpoint.name
                        &&& job.schedule.spec_pattern() == endpoint.schedule@
                        &&& job.schedule.spec_zone() == endpoint.timezone@
                        &&& job.overlap_policy == endpoint.overlap_policy
                        &&& job.missed_run_policy == endpoint.missed_run_policy
                        &&& !job.running
                    })
                }
            }
        }),
{
    let endpoint_id: i32 = input.endpoint_id(environment);
    let config = match data_source.endpoint_config(endpoint_id, environment) {
        Ok(config) => config,
        Err(error) => return Err(error),
    };
    match set_up.instruments {
        Ok(_) => {},
        Err(error) => return Err(error),
    }
    let consumer = CronEndpointConsumer {
        stream: *input.stream(),
        function,
        timed: environment.metrics_enabled(),
    };
    match set_up.registration {
        Ok(_) => {},
        Err(error) => return Err(error),
    }
    environment.register_endpoint_consumer(endpoint_id);
    if config.enabled {
        let schedule = match Schedule::parse(config.schedule, config.timezone) {
            Ok(schedule) => schedule,
            Err(error) => return Err(error),
        };
        let job = CronJob::new(
            config.id,
            config.name,
            schedule,
            config.overlap_policy,
            config.missed_run_policy,
        );
        match data_source.add_job(job) {
            Ok(_) => {
                assert(data_source.jobs@.drop_last() =~= old(data_source).jobs@);
            },
            Err(error) => return Err(error),
        }
    }
    Ok(consumer)
}

/// A run is active from before the function hears of it until after it returned, and
/// counts once, as a message.
pub proof fn law_run_accounting(timed: bool, context: MessageContext, trigger: ScheduleTrigger)
    ensures
        ({
            let opened = two(
                Action::<ScheduleTrigger, (), ()>::Record(Metric::ActiveUp),
                Action::ConsumeMessage { context, value: trigger },
            );
            let closed = request_end::<ScheduleTrigger, (), ()>(timed, true);
            &&& follows(opened, Kind::ConsumeMessage, Kind::Record(Metric::ActiveUp))
            &&& tally(opened, Kind::ConsumeMessage) == 1
            &&& tally(opened, Kind::Record(Metric::ActiveUp)) == 1
            &&& tally(opened, Kind::Record(Metric::ActiveDown)) == 0
            &&& tally(closed, Kind::ConsumeMessage) == 0
            &&& tally(closed, Kind::Record(Metric::ActiveUp)) == 0
            &&& tally(closed, Kind::Record(Metric::ActiveDown)) == 1
            &&& tally(closed, Kind::Record(Metric::MessagesTotal)) == 1
            &&& tally(closed, Kind::Record(Metric::RequestError)) == 0
        }),
{
    broadcast use {group_tally, follows_push, follows_empty};

}

} // verus!
