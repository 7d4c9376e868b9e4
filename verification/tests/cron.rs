use chrono::{TimeZone, Utc};

use servicelib::datasource::cron::{
    make_croner_endpoint_consumer, make_trigger, CronDataSource, CronJob, Dispatch, Schedule,
    ScheduleBackend, ScheduleEndpointFunction, ScheduleTrigger, Showings,
};
use servicelib::datasource::endpoint::SetUp;
use servicelib::operators::InputStream;
use servicelib::runtime::common::MessageContext;
use servicelib::runtime::config::{
    CallSemantics, CronDataConnectorConfig, CronEndpointConfig, CustomDataConnectorConfig,
    CustomEndpointConfig, InputStreamConfig, RuntimeConfig, RuntimeDataConnectorConfig,
    RuntimeEndpointConfig, RuntimeStreamConfig, ScheduleMissedRunPolicy, ScheduleOverlapPolicy,
    StreamConfig,
};
use servicelib::runtime::environment::RuntimeEnvironment;
use servicelib::runtime::error::RuntimeError;
use servicelib::runtime::request::{Action, Metric};
use servicelib::runtime::stream::Collected;

const HOUR: i64 = 3600;

fn at(year: i32, month: u32, day: u32, hour: u32, minute: u32) -> i64 {
    Utc.with_ymd_and_hms(year, month, day, hour, minute, 0)
        .single()
        .expect("valid fixture")
        .timestamp()
}

fn schedule(pattern: &str, zone: &str) -> Schedule {
    match Schedule::parse(pattern.to_owned(), zone.to_owned()) {
        Ok(schedule) => schedule,
        Err(_) => panic!("valid cron fixture"),
    }
}

fn job(
    id: i32,
    overlap_policy: ScheduleOverlapPolicy,
    missed_run_policy: ScheduleMissedRunPolicy,
) -> CronJob {
    CronJob::new(
        id,
        "hourly".to_owned(),
        schedule("0 * * * *", "UTC"),
        overlap_policy,
        missed_run_policy,
    )
}

fn invalid_text<T>(result: Result<T, RuntimeError>) -> String {
    match result {
        Err(RuntimeError::InvalidConfiguration(text)) => text,
        _ => panic!("expected a configuration error"),
    }
}

#[test]
fn croner_calculates_the_next_utc_occurrence() {
    let job = CronJob::new(
        1,
        "hourly".to_owned(),
        schedule("0 * * * *", "UTC"),
        ScheduleOverlapPolicy::Skip,
        ScheduleMissedRunPolicy::Skip,
    );
    let after = at(2026, 8, 24, 12, 30);
    assert_eq!(job.next(after).ok().expect("next occurrence"), at(2026, 8, 24, 13, 0));
}

#[test]
fn occurrence_at_the_instant_itself_is_not_next() {
    let hourly = schedule("0 * * * *", "UTC");
    assert_eq!(hourly.next(at(2026, 8, 24, 12, 0)).ok(), Some(at(2026, 8, 24, 13, 0)));
}

#[test]
fn skipped_wall_times_do_not_run() {
    let nightly = schedule("30 2 * * *", "Europe/Berlin");
    assert_eq!(nightly.next(at(2026, 3, 27, 12, 0)).ok(), Some(at(2026, 3, 28, 1, 30)));
    assert_eq!(nightly.next(at(2026, 3, 28, 12, 0)).ok(), Some(at(2026, 3, 30, 0, 30)));
}

#[test]
fn repeated_wall_times_run_once() {
    let nightly = schedule("30 2 * * *", "Europe/Berlin");
    let first = at(2026, 10, 25, 0, 30);
    assert_eq!(nightly.next(at(2026, 10, 24, 12, 0)).ok(), Some(first));
    assert_eq!(nightly.next(first).ok(), Some(at(2026, 10, 26, 1, 30)));
}

#[test]
fn candidates_are_judged_by_match_and_showing() {
    assert!(Schedule::decide(true, Showings::Once, 5));
    assert!(!Schedule::decide(false, Showings::Once, 5));
    assert!(!Schedule::decide(true, Showings::Never, 5));
    assert!(Schedule::decide(true, Showings::Twice { first: 5 }, 5));
    assert!(!Schedule::decide(true, Showings::Twice { first: 5 }, 6));
}

#[test]
fn unknown_schedules_and_zones_are_refused() {
    let text = invalid_text(Schedule::parse("nonsense".to_owned(), "UTC".to_owned()));
    assert!(!text.is_empty());
    assert_eq!(
        invalid_text(Schedule::parse("0 * * * *".to_owned(), "Nowhere/Land".to_owned())),
        "failed to parse timezone"
    );
}

#[test]
fn ring_asks_for_one_due_run() {
    let start = at(2026, 8, 24, 12, 0);
    let mut job = job(1, ScheduleOverlapPolicy::Allow, ScheduleMissedRunPolicy::Skip);
    let (next, run) = job.ring(start, start - 1).ok().unwrap();
    assert_eq!(next, start);
    assert!(run.is_none());
    let (next, run) = job.ring(start, start + 1).ok().unwrap();
    assert_eq!(next, start + HOUR);
    let run = run.unwrap();
    assert_eq!((run.endpoint_id, run.scheduled_at, run.guarded), (1, start, false));
}

#[test]
fn missed_runs_are_skipped_or_made_up_for_once() {
    let start = at(2026, 8, 24, 12, 0);
    let late = start + 3 * HOUR + 1;
    let mut skipping = job(1, ScheduleOverlapPolicy::Allow, ScheduleMissedRunPolicy::Skip);
    let (next, run) = skipping.ring(start, late).ok().unwrap();
    assert_eq!(next, start + 4 * HOUR);
    assert!(run.is_none());
    let mut firing = job(1, ScheduleOverlapPolicy::Allow, ScheduleMissedRunPolicy::FireOnce);
    let (next, run) = firing.ring(start, late).ok().unwrap();
    assert_eq!(next, start + 4 * HOUR);
    assert_eq!(run.unwrap().scheduled_at, start + 3 * HOUR);
    assert_eq!(firing.catch_up(start, late).ok(), Some((start + 3 * HOUR, start + 4 * HOUR)));
}

#[test]
fn runs_do_not_overlap() {
    let mut job = job(1, ScheduleOverlapPolicy::Skip, ScheduleMissedRunPolicy::Skip);
    let run = job.dispatch(10).unwrap();
    assert!(run.guarded);
    assert!(job.dispatch(20).is_none());
    job.finished();
    assert_eq!(job.dispatch(30).unwrap().scheduled_at, 30);
}

#[test]
fn overlapping_runs_are_asked_for_where_allowed() {
    let mut job = job(1, ScheduleOverlapPolicy::Allow, ScheduleMissedRunPolicy::Skip);
    assert!(!job.dispatch(10).unwrap().guarded);
    assert!(job.dispatch(20).is_some());
}

fn endpoint(id: i32, connector: i32, schedule: &str, enabled: bool) -> RuntimeEndpointConfig {
    RuntimeEndpointConfig::Cron(CronEndpointConfig {
        id,
        name: "tick".to_owned(),
        id_data_connector: connector,
        enabled,
        schedule: schedule.to_owned(),
        timezone: "UTC".to_owned(),
        overlap_policy: ScheduleOverlapPolicy::Skip,
        missed_run_policy: ScheduleMissedRunPolicy::Skip,
    })
}

fn environment(endpoint_id: i32) -> RuntimeEnvironment {
    let config = RuntimeConfig {
        service_id: Some(1),
        default_semantics: CallSemantics::FunctionCall,
        streams: vec![RuntimeStreamConfig::Input(InputStreamConfig {
            stream: StreamConfig { id: 7, name: "ticks".to_owned(), id_service: 1 },
            endpoint_id,
        })],
        links: vec![],
        endpoints: vec![
            endpoint(3, 1, "0 * * * *", true),
            endpoint(4, 2, "0 * * * *", true),
            endpoint(5, 1, "nonsense", true),
            endpoint(6, 1, "nonsense", false),
            RuntimeEndpointConfig::Custom(CustomEndpointConfig {
                id: 8,
                name: "local".to_owned(),
                id_data_connector: 9,
            }),
        ],
        data_connectors: vec![
            RuntimeDataConnectorConfig::Cron(CronDataConnectorConfig {
                id: 1,
                name: "clock".to_owned(),
            }),
            RuntimeDataConnectorConfig::Custom(CustomDataConnectorConfig {
                id: 9,
                name: "local".to_owned(),
            }),
        ],
    };
    RuntimeEnvironment::new(config, false, true)
}

struct Ticks;

impl ScheduleEndpointFunction<i64> for Ticks {
    fn on_trigger(&self, context: MessageContext, trigger: ScheduleTrigger) -> Vec<Collected<i64>> {
        vec![Collected { context, value: trigger.scheduled_at }]
    }
}

fn input(environment: &mut RuntimeEnvironment, endpoint_id: i32) -> InputStream<i64, (), (), i32> {
    InputStream::new(
        InputStreamConfig {
            stream: StreamConfig { id: 7, name: "ticks".to_owned(), id_service: 1 },
            endpoint_id,
        },
        environment,
    )
}

#[test]
fn data_source_needs_a_cron_connector() {
    let environment = environment(3);
    assert_eq!(
        invalid_text(CronDataSource::new(2, &environment)),
        "cron data connector 2 not found"
    );
    assert_eq!(
        invalid_text(CronDataSource::new(9, &environment)),
        "data connector \"local\" is not cron"
    );
    assert_eq!(CronDataSource::new(1, &environment).ok().unwrap().name, "clock");
}

#[test]
fn endpoints_belong_to_their_connector() {
    let environment = environment(3);
    let source = CronDataSource::new(1, &environment).ok().unwrap();
    assert_eq!(source.endpoint_config(3, &environment).ok().unwrap().name, "tick");
    assert_eq!(
        invalid_text(source.endpoint_config(4, &environment)),
        "cron endpoint \"tick\" belongs to connector 2, not 1"
    );
    assert_eq!(
        invalid_text(source.endpoint_config(99, &environment)),
        "cron endpoint 99 not found"
    );
    assert_eq!(invalid_text(source.endpoint_config(8, &environment)), "endpoint 8 is not cron");
}

#[test]
fn endpoint_has_one_job() {
    let environment = environment(3);
    let mut source = CronDataSource::new(1, &environment).ok().unwrap();
    let policy = (ScheduleOverlapPolicy::Skip, ScheduleMissedRunPolicy::Skip);
    assert!(source.add_job(job(3, policy.0, policy.1)).is_ok());
    assert!(matches!(
        source.add_job(job(3, policy.0, policy.1)),
        Err(RuntimeError::DuplicateResource(name)) if name == "hourly"
    ));
}

#[test]
fn scheduler_rings_its_jobs() {
    let environment = environment(3);
    let mut source = CronDataSource::new(1, &environment).ok().unwrap();
    let now = at(2026, 8, 24, 12, 30);
    let due = at(2026, 8, 24, 13, 0);
    assert_eq!(source.earliest(), None);
    let skip = (ScheduleOverlapPolicy::Skip, ScheduleMissedRunPolicy::Skip);
    assert!(source.add_job(job(3, skip.0, skip.1)).is_ok());
    assert!(source
        .add_job(CronJob::new(
            4,
            "half".to_owned(),
            schedule("45 * * * *", "UTC"),
            skip.0,
            skip.1
        ))
        .is_ok());
    assert!(source.start(now).is_ok());
    assert!(matches!(
        source.start(now),
        Err(RuntimeError::ResourceAlreadyStarted(name)) if name == "clock"
    ));
    assert_eq!(source.earliest(), Some(at(2026, 8, 24, 12, 45)));
    assert!(source.fire(now).ok().unwrap().is_empty());
    let runs = source.fire(due).ok().unwrap();
    let asked: Vec<(i32, i64)> = runs.iter().map(|r| (r.endpoint_id, r.scheduled_at)).collect();
    assert_eq!(asked, vec![(3, due), (4, at(2026, 8, 24, 12, 45))]);
    source.run_finished(1);
    let runs = source.fire(due + HOUR).ok().unwrap();
    let asked: Vec<i32> = runs.iter().map(|r| r.endpoint_id).collect();
    assert_eq!(asked, vec![4]);
    assert!(source.stop(Ok(())).is_ok());
    assert_eq!(source.earliest(), None);
    assert!(source.stop(Err(RuntimeError::Transport("late".to_owned()))).is_ok());
    assert!(source.start(now).is_ok());
    assert!(matches!(
        source.stop(Err(RuntimeError::Transport("lost".to_owned()))),
        Err(RuntimeError::Transport(text)) if text == "lost"
    ));
}

#[test]
fn job_without_a_next_run_leaves_no_marks() {
    let environment = environment(3);
    let mut source = CronDataSource::new(1, &environment).ok().unwrap();
    let skip = (ScheduleOverlapPolicy::Skip, ScheduleMissedRunPolicy::Skip);
    let last = CronJob::new(
        4,
        "yearly".to_owned(),
        schedule("30 22 31 12 *", "UTC"),
        skip.0,
        skip.1,
    );
    assert!(source.add_job(job(3, skip.0, skip.1)).is_ok());
    assert!(source.add_job(last).is_ok());
    assert!(source.start(at(2026, 8, 24, 12, 30)).is_ok());
    let now = at(5000, 12, 31, 22, 30);
    let due = vec![at(5000, 12, 31, 22, 0), now];
    source.next = due.clone();
    assert!(!invalid_text(source.fire(now)).is_empty());
    assert!(!source.jobs[0].running);
    assert_eq!(source.next, due);
    source.jobs[0].running = true;
    assert!(source.fire(now).is_err());
    assert!(source.jobs[0].running);
}

#[test]
fn triggers_tell_when_they_were_scheduled() {
    let job = job(3, ScheduleOverlapPolicy::Skip, ScheduleMissedRunPolicy::Skip);
    let dispatch = Dispatch { endpoint_id: 3, scheduled_at: 100, guarded: true };
    let trigger = make_trigger(&job, &dispatch, 103_250_000_001);
    assert_eq!((trigger.endpoint_id, trigger.endpoint_name.as_str()), (3, "hourly"));
    assert_eq!((trigger.scheduled_at, trigger.fired_at), (100, 103_250_000_001));
    assert!(matches!(trigger.backend, ScheduleBackend::Local));
}

#[test]
fn cron_consumer_runs_its_function() {
    let mut environment = environment(3);
    let mut source = CronDataSource::new(1, &environment).ok().unwrap();
    let input = input(&mut environment, 3);
    let ready = SetUp::ready();
    let consumer =
        make_croner_endpoint_consumer(&mut source, &input, Ticks, &mut environment, ready)
            .ok()
            .unwrap();
    assert_eq!(consumer.id(&environment), 3);
    assert_eq!(consumer.id(&self::environment(5)), 5);
    assert_eq!(source.jobs.len(), 1);
    let dispatch = Dispatch { endpoint_id: 3, scheduled_at: 100, guarded: true };
    let trigger = make_trigger(&source.jobs[0], &dispatch, 101_000_000_000);
    let mut opened = consumer.begin(MessageContext::background(), trigger);
    assert!(matches!(opened[0], Action::Record(Metric::ActiveUp)));
    assert_eq!(opened.len(), 2);
    let emissions = match opened.pop() {
        Some(Action::ConsumeMessage { context, value }) => consumer.consume(context, value),
        _ => panic!("expected the run"),
    };
    assert_eq!((emissions[0].stream.id(), *emissions[0].payload.get()), (7, 100));
    let records: Vec<Metric> = consumer
        .finish()
        .iter()
        .map(|action| match action {
            Action::Record(metric) => *metric,
            _ => panic!("expected a metric"),
        })
        .collect();
    assert_eq!(records, vec![Metric::ActiveDown, Metric::Duration, Metric::MessagesTotal]);
}

#[test]
fn cron_endpoint_that_is_not_set_up_has_no_job() {
    let lost = || Err(RuntimeError::Transport("lost".to_owned()));
    for set_up in [
        SetUp { instruments: lost(), registration: Ok(()) },
        SetUp { instruments: Ok(()), registration: lost() },
    ] {
        let mut environment = environment(3);
        let mut source = CronDataSource::new(1, &environment).ok().unwrap();
        let input = input(&mut environment, 3);
        assert!(matches!(
            make_croner_endpoint_consumer(&mut source, &input, Ticks, &mut environment, set_up),
            Err(RuntimeError::Transport(text)) if text == "lost"
        ));
        assert!(source.jobs.is_empty());
    }
}

#[test]
fn disabled_cron_endpoints_have_no_job() {
    let mut environment = environment(6);
    let mut source = CronDataSource::new(1, &environment).ok().unwrap();
    let input = input(&mut environment, 6);
    let ready = SetUp::ready();
    assert!(make_croner_endpoint_consumer(&mut source, &input, Ticks, &mut environment, ready)
        .is_ok());
    assert!(source.jobs.is_empty());
}

#[test]
fn enabled_cron_endpoints_need_a_schedule() {
    let mut environment = environment(5);
    let mut source = CronDataSource::new(1, &environment).ok().unwrap();
    let input = input(&mut environment, 5);
    let ready = SetUp::ready();
    assert!(make_croner_endpoint_consumer(&mut source, &input, Ticks, &mut environment, ready)
        .is_err());
    assert!(source.jobs.is_empty());
}
