use rdkafka::ClientConfig;

use servicelib::datasink::direct::DirectEvent;
use servicelib::datasink::kafka::{
    apply_security, check_topics, make_endpoint_consumer, make_rdkafka_kafka_endpoint_consumer,
    make_rdkafka_kafka_endpoint_consumer_with_partitioner, KafkaEndpointRuntimeState, KafkaState,
    Partitioner, RdkafkaKafkaDataSink, RdkafkaKafkaEndpointConsumer, SinkMessage, StartPlan,
    StartStep, TopicOutcome,
};
use servicelib::operators::SinkStreamWithResult;
use servicelib::runtime::common::{MessageContext, Payload};
use servicelib::runtime::config::{
    CallSemantics, CustomDataConnectorConfig, CustomEndpointConfig, KafkaDataConnectorConfig,
    KafkaEndpointConfig, KafkaSaslMechanism, KafkaSecurityProtocol, RuntimeConfig,
    RuntimeDataConnectorConfig, RuntimeEndpointConfig, RuntimeStreamConfig, SinkStreamConfig,
    StreamConfig,
};
use servicelib::runtime::environment::RuntimeEnvironment;
use servicelib::runtime::error::{Fault, HandlerError, HandlerResult, RuntimeError};
use servicelib::runtime::request::Action;
use servicelib::runtime::stream::Stream;
use servicelib::runtime::string_map::StringMap;

struct Modulo;

impl Partitioner<i32, &'static str> for Modulo {
    fn partition(&self, value: &i32, num_partitions: i32) -> HandlerResult<i32, &'static str> {
        if *value < 0 {
            Err(HandlerError::Raised("negative"))
        } else {
            Ok(value % num_partitions)
        }
    }
}

type Consumer = RdkafkaKafkaEndpointConsumer<u64, String, Modulo>;
type Sink = SinkStreamWithResult<i32, u64, String, Consumer>;

fn endpoint(id: i32, topic: &str) -> KafkaEndpointConfig {
    KafkaEndpointConfig {
        id,
        name: format!("{topic}-{id}"),
        id_data_connector: 1,
        topic: topic.to_owned(),
        consumer_group: String::new(),
        enabled: true,
        create_topic: true,
        partitions: 0,
        replication_factor: 2,
    }
}

fn connector() -> KafkaDataConnectorConfig {
    KafkaDataConnectorConfig {
        id: 1,
        name: "broker".to_owned(),
        brokers: "localhost:9092".to_owned(),
        version: String::new(),
        dial_timeout: 0,
        security_protocol: KafkaSecurityProtocol::Plaintext,
        sasl_mechanism: KafkaSaslMechanism::Plain,
        username: String::new(),
        password: String::new(),
    }
}

fn sink_config(endpoint_id: i32) -> SinkStreamConfig {
    SinkStreamConfig {
        stream: StreamConfig { id: 7, name: "orders".to_owned(), id_service: 1 },
        endpoint_id,
    }
}

fn config(endpoint_id: i32) -> RuntimeConfig {
    let mut lost = endpoint(8, "lost");
    lost.id_data_connector = 99;
    let mut foreign = endpoint(9, "foreign");
    foreign.id_data_connector = 2;
    RuntimeConfig {
        service_id: Some(1),
        default_semantics: CallSemantics::FunctionCall,
        streams: vec![RuntimeStreamConfig::Sink(sink_config(endpoint_id))],
        links: vec![],
        endpoints: vec![
            RuntimeEndpointConfig::Kafka(endpoint(3, "a")),
            RuntimeEndpointConfig::Kafka(endpoint(4, "b")),
            RuntimeEndpointConfig::Kafka(endpoint(5, "a")),
            RuntimeEndpointConfig::Kafka(lost),
            RuntimeEndpointConfig::Kafka(foreign),
            RuntimeEndpointConfig::Custom(CustomEndpointConfig {
                id: 6,
                name: "local".to_owned(),
                id_data_connector: 2,
            }),
        ],
        data_connectors: vec![
            RuntimeDataConnectorConfig::Kafka(connector()),
            RuntimeDataConnectorConfig::Custom(CustomDataConnectorConfig {
                id: 2,
                name: "process".to_owned(),
            }),
        ],
    }
}

fn environment(endpoint_id: i32) -> RuntimeEnvironment {
    RuntimeEnvironment::new(config(endpoint_id), false, true)
}

fn sink(environment: &mut RuntimeEnvironment, endpoint_id: i32) -> Sink {
    let source: Stream<i32> = Stream::new(
        &StreamConfig { id: 1, name: "source".to_owned(), id_service: 1 },
        environment,
    );
    source.sink_with_result(&sink_config(endpoint_id), environment).ok().unwrap()
}

fn headers() -> StringMap<String> {
    let mut headers = StringMap::new();
    headers.insert("x-stream-id".to_owned(), "id".to_owned());
    headers
}

fn state() -> KafkaEndpointRuntimeState {
    KafkaEndpointRuntimeState::new()
}

fn data_sink(ids: &[i32]) -> RdkafkaKafkaDataSink {
    let mut data_sink = RdkafkaKafkaDataSink::new(1, "broker".to_owned());
    for id in ids {
        assert!(data_sink.add_endpoint(&endpoint(*id, "a"), state()).is_ok());
    }
    data_sink
}

fn plan(step: Result<StartStep, RuntimeError>) -> StartPlan {
    match step {
        Ok(StartStep::Connect(plan)) => plan,
        _ => panic!("expected a plan"),
    }
}

fn invalid_text<T>(result: Result<T, RuntimeError>) -> String {
    match result {
        Err(RuntimeError::InvalidConfiguration(text)) => text,
        _ => panic!("expected a configuration error"),
    }
}

#[test]
fn security_settings_follow_the_connector() {
    let mut config = ClientConfig::new();
    assert!(apply_security(&mut config, &connector()).is_ok());
    assert_eq!(config.get("security.protocol"), Some("PLAINTEXT"));
    assert_eq!(config.get("sasl.mechanism"), None);
    let mut secured = connector();
    secured.security_protocol = KafkaSecurityProtocol::SaslSsl;
    secured.sasl_mechanism = KafkaSaslMechanism::ScramSha512;
    secured.username = "user".to_owned();
    assert_eq!(
        invalid_text(apply_security(&mut config, &secured)),
        "Kafka SASL username and password must both be configured"
    );
    secured.password = "word".to_owned();
    assert!(apply_security(&mut config, &secured).is_ok());
    assert_eq!(config.get("security.protocol"), Some("SASL_SSL"));
    assert_eq!(config.get("sasl.mechanism"), Some("SCRAM-SHA-512"));
    assert_eq!(config.get("sasl.username"), Some("user"));
    assert_eq!(config.get("sasl.password"), Some("word"));
}

#[test]
fn producer_settings_follow_the_connector() {
    let mut config = config(3);
    let mut changed = connector();
    changed.version = "2.0.0".to_owned();
    changed.dial_timeout = 1500;
    config.data_connectors = vec![RuntimeDataConnectorConfig::Kafka(changed)];
    let environment = RuntimeEnvironment::new(config, false, false);
    let statistics = vec![("statistics.interval.ms".to_owned(), "5000".to_owned())];
    let plan = plan(data_sink(&[3]).begin_start(&environment, Ok(statistics)));
    assert_eq!(plan.client.get("statistics.interval.ms"), Some("5000"));
    assert_eq!(plan.client.get("bootstrap.servers"), Some("localhost:9092"));
    assert_eq!(plan.client.get("partitioner"), Some("random"));
    assert_eq!(plan.client.get("broker.version.fallback"), Some("2.0.0"));
    assert_eq!(plan.client.get("api.version.request"), Some("false"));
    assert_eq!(plan.client.get("socket.timeout.ms"), Some("1500"));
}

#[test]
fn endpoints_are_added_once_to_their_connector() {
    let mut data_sink = data_sink(&[3]);
    assert!(matches!(
        data_sink.add_endpoint(&endpoint(3, "a"), state()),
        Err(RuntimeError::DuplicateResource(_))
    ));
    let mut other = endpoint(4, "b");
    other.id_data_connector = 2;
    assert_eq!(
        invalid_text(data_sink.add_endpoint(&other, state())),
        "Kafka endpoint \"b-4\" references connector 2, expected 1"
    );
}

#[test]
fn start_runs_through_topics_and_partitions() {
    let environment = environment(3);
    let mut data_sink = data_sink(&[3, 4, 5]);
    let plan = plan(data_sink.begin_start(&environment, Ok(vec![])));
    assert_eq!(plan.client.get("security.protocol"), Some("PLAINTEXT"));
    assert_eq!(plan.client.get("broker.version.fallback"), None);
    let topics: Vec<&str> = plan.enabled.iter().map(|topic| topic.topic.as_str()).collect();
    assert_eq!(topics, vec!["a", "b", "a"]);
    let planned = data_sink.topics_to_create(&environment);
    let created: Vec<(&str, i32, i32)> =
        planned.iter().map(|p| (p.topic.as_str(), p.partitions, p.replication)).collect();
    assert_eq!(created, vec![("a", 1, 2), ("b", 1, 2)]);
    assert!(matches!(
        data_sink.check_send::<()>(),
        Err(HandlerError::Fault(Fault::KafkaProducerNotRunning))
    ));
    let counts = vec![("a".to_owned(), 6), ("b".to_owned(), 2)];
    assert!(data_sink.finish_start(&plan.enabled, Ok(counts)).is_ok());
    assert_eq!(data_sink.state, KafkaState::Running);
    let partitions: Vec<i32> = data_sink.endpoints.iter().map(|e| e.state.partitions).collect();
    assert_eq!(partitions, vec![6, 2, 6]);
    assert!(data_sink.check_send::<()>().is_ok());
    assert!(matches!(
        data_sink.begin_start(&environment, Ok(vec![])),
        Err(RuntimeError::ResourceAlreadyStarted(name)) if name == "broker"
    ));
}

#[test]
fn start_without_enabled_endpoints_needs_no_producer() {
    let mut config = config(3);
    let mut disabled = endpoint(3, "a");
    disabled.enabled = false;
    config.endpoints = vec![RuntimeEndpointConfig::Kafka(disabled)];
    config.data_connectors = vec![];
    let environment = RuntimeEnvironment::new(config, false, false);
    let mut data_sink = data_sink(&[3]);
    assert!(matches!(data_sink.begin_start(&environment, Ok(vec![])), Ok(StartStep::Started)));
    assert_eq!(data_sink.state, KafkaState::Running);
    assert!(!data_sink.has_producer);
    assert!(data_sink.check_send::<()>().is_err());
}

#[test]
fn start_names_what_is_not_configured() {
    let environment = environment(3);
    assert_eq!(
        invalid_text(data_sink(&[3, 77]).begin_start(&environment, Ok(vec![]))),
        "Kafka endpoint 77 is not configured"
    );
    assert_eq!(
        invalid_text(data_sink(&[6]).begin_start(&environment, Ok(vec![]))),
        "endpoint 6 is not Kafka"
    );
    let mut blank = config(3);
    let mut changed = connector();
    changed.brokers = "  ".to_owned();
    blank.data_connectors = vec![RuntimeDataConnectorConfig::Kafka(changed)];
    let environment = RuntimeEnvironment::new(blank, false, false);
    let mut sink = data_sink(&[3]);
    assert_eq!(
        invalid_text(sink.begin_start(&environment, Ok(vec![]))),
        "no brokers specified for Kafka data connector \"broker\""
    );
    assert_eq!(sink.state, KafkaState::Idle);
    let mut missing = config(3);
    missing.data_connectors = vec![];
    let environment = RuntimeEnvironment::new(missing, false, false);
    assert_eq!(
        invalid_text(data_sink(&[3]).begin_start(&environment, Ok(vec![]))),
        "Kafka data connector 1 is not configured"
    );
    let mut other = config(3);
    other.data_connectors =
        vec![RuntimeDataConnectorConfig::Custom(CustomDataConnectorConfig {
            id: 1,
            name: "process".to_owned(),
        })];
    let environment = RuntimeEnvironment::new(other, false, false);
    assert_eq!(
        invalid_text(data_sink(&[3]).begin_start(&environment, Ok(vec![]))),
        "data connector \"broker\" is not Kafka"
    );
}

#[test]
fn failed_start_may_be_repeated() {
    let environment = environment(3);
    let mut data_sink = data_sink(&[3]);
    let _ = plan(data_sink.begin_start(&environment, Ok(vec![])));
    assert!(matches!(
        data_sink.give_up_start("no client".to_owned()),
        RuntimeError::Transport(text) if text == "no client"
    ));
    let again = plan(data_sink.begin_start(&environment, Ok(vec![])));
    assert!(matches!(
        data_sink.finish_start(&again.enabled, Ok(vec![("b".to_owned(), 3)])),
        Err(RuntimeError::Transport(text)) if text == "Kafka topic \"a\" has no partitions"
    ));
    assert!(matches!(
        data_sink.finish_start(&again.enabled, Err("unreachable".to_owned())),
        Err(RuntimeError::Transport(text)) if text == "unreachable"
    ));
    assert_eq!(data_sink.state, KafkaState::Starting);
}

#[test]
fn existing_topics_are_no_failure() {
    assert!(check_topics(&vec![TopicOutcome::Created, TopicOutcome::AlreadyExists]).is_ok());
    let failed = TopicOutcome::Failed { topic: "a".to_owned(), error: "denied".to_owned() };
    assert_eq!(
        check_topics(&vec![TopicOutcome::AlreadyExists, failed]),
        Err("create Kafka topic \"a\" failed: denied".to_owned())
    );
}

#[test]
fn stop_flushes_once() {
    let environment = environment(3);
    let mut data_sink = data_sink(&[3]);
    let plan = plan(data_sink.begin_start(&environment, Ok(vec![])));
    assert!(data_sink.finish_start(&plan.enabled, Ok(vec![("a".to_owned(), 1)])).is_ok());
    assert!(data_sink.stop());
    assert!(!data_sink.stop());
    assert!(matches!(
        data_sink.begin_start(&environment, Ok(vec![])),
        Err(RuntimeError::ResourceStopped(name)) if name == "broker"
    ));
    assert!(data_sink.after_tasks(true).is_ok());
    assert!(matches!(data_sink.after_tasks(false), Err(RuntimeError::ContextCancelled)));
    assert!(data_sink.after_flush(false, false).is_none());
    assert!(matches!(data_sink.after_flush(true, true), Some(Ok(()))));
    assert!(matches!(
        data_sink.after_flush(false, true),
        Some(Err(RuntimeError::ContextCancelled))
    ));
}

#[test]
fn partitioner_picks_among_the_partitions() {
    let mut environment = environment(3);
    let mut stream = sink(&mut environment, 3);
    let mut data_sink = RdkafkaKafkaDataSink::from_stream(&stream, &environment).ok().unwrap();
    assert_eq!((data_sink.id, data_sink.name.as_str()), (1, "broker"));
    assert!(make_rdkafka_kafka_endpoint_consumer_with_partitioner(
        &mut stream,
        &mut data_sink,
        Modulo,
        &environment,
        Ok(())
    )
    .is_ok());
    let context = MessageContext::background();
    let (consumer, context, payload) = stream.consume(context, Payload::new(11)).unwrap();
    let counted = KafkaEndpointRuntimeState { enabled: true, partitions: 4 };
    assert!(matches!(
        consumer.partition::<i32, &str>(&counted, payload.get()),
        Ok(Some(3))
    ));
    assert!(matches!(consumer.partition::<i32, &str>(&state(), &11), Ok(Some(0))));
    assert!(matches!(
        consumer.partition::<i32, &str>(&counted, &-1),
        Err(HandlerError::Raised("negative"))
    ));
    let mut message = consumer.message(context);
    assert_eq!(message.topic(), "a");
    assert!(message.key.is_none() && message.value.is_empty());
    message.key = Some(b"k".to_vec());
    message.value = b"v".to_vec();
    let record = message.record::<()>(Ok(Some(3)), headers()).ok().unwrap();
    assert_eq!(record.headers.get("x-stream-id").unwrap(), "id");
    assert_eq!(record.headers.len(), 1);
    assert_eq!((record.topic.as_str(), record.partition), ("a", Some(3)));
    assert_eq!((record.key.unwrap(), record.value), (b"k".to_vec(), b"v".to_vec()));
    assert!(matches!(
        message.record(Err(HandlerError::Raised("bad")), headers()),
        Err(HandlerError::Raised("bad"))
    ));
    assert_eq!(*message.out(5).payload.get(), 5);
    assert_eq!(message.skip(6).stream.id(), 7);
}

#[test]
fn deliveries_are_reported() {
    assert!(matches!(SinkMessage::<u64>::report::<&str>(Ok((2, 40))), (2, 40, None)));
    assert!(matches!(
        SinkMessage::<u64>::report(Err(HandlerError::Raised("lost"))),
        (0, 0, Some(HandlerError::Raised("lost")))
    ));
}

#[test]
fn disabled_kafka_endpoint_drops_messages() {
    let mut environment = environment(3);
    let mut stream = sink(&mut environment, 3);
    let mut data_sink = RdkafkaKafkaDataSink::from_stream(&stream, &environment).ok().unwrap();
    assert!(make_rdkafka_kafka_endpoint_consumer(
        &mut stream,
        &mut data_sink,
        None,
        &environment,
        Ok(())
    )
    .is_ok());
    let context = MessageContext::background();
    let (consumer, context, payload) = stream.consume(context, Payload::new(11)).unwrap();
    assert!(matches!(consumer.partition::<i32, &str>(&state(), &1), Ok(None)));
    let disabled = KafkaEndpointRuntimeState { enabled: false, partitions: 1 };
    assert!(consumer
        .consume::<i32, &str>(&disabled, context.clone(), "id".to_owned(), payload)
        .is_none());
    let enabled = KafkaEndpointRuntimeState { enabled: true, partitions: 1 };
    let (request, actions) = consumer
        .consume::<i32, &str>(&enabled, context, "id".to_owned(), Payload::new(1))
        .unwrap();
    assert!(matches!(
        &actions[0],
        Action::BeginRequest { context } if context.stream_id().unwrap() == "id"
    ));
    let (request, _) = request.step(DirectEvent::Begun(MessageContext::background()));
    let failed = Err(HandlerError::Fault(Fault::KafkaMessageCancelled));
    let (request, actions) = request.step(DirectEvent::Consumed(failed));
    assert_eq!(actions.len(), 1);
    let (request, actions) = request.step(DirectEvent::Ended { notify: false });
    assert_eq!(actions.len(), 3);
    assert!(matches!(
        request.result(),
        Some(Err(HandlerError::Fault(Fault::KafkaMessageCancelled)))
    ));
}

#[test]
fn kafka_sinks_need_their_configuration() {
    for (endpoint_id, expected) in [
        (77, "endpoint 77 referenced by sink stream \"orders\" is not configured"),
        (6, "endpoint \"local\" referenced by sink stream \"orders\" is not a Kafka endpoint"),
        (8, "data connector 99 referenced by endpoint \"lost-8\" is not configured"),
        (9, "endpoint \"foreign-9\" does not reference a Kafka data connector"),
    ] {
        let mut environment = environment(endpoint_id);
        let stream = sink(&mut environment, endpoint_id);
        assert_eq!(
            invalid_text(RdkafkaKafkaDataSink::from_stream(&stream, &environment)),
            expected
        );
    }
}

#[test]
fn lone_kafka_consumer_takes_its_configured_partitions() {
    let mut environment = environment(3);
    let mut stream = sink(&mut environment, 3);
    let mut config = endpoint(3, "a");
    config.partitions = 5;
    let state = make_endpoint_consumer(&mut stream, config, connector(), None, &environment, Ok(()))
        .ok()
        .unwrap();
    assert_eq!((state.enabled, state.partitions), (true, 5));
}

#[test]
fn kafka_start_needs_its_statistics() {
    let environment = environment(3);
    let mut data_sink = data_sink(&[3]);
    let lost = Err(RuntimeError::Transport("lost".to_owned()));
    assert!(matches!(
        data_sink.begin_start(&environment, lost),
        Err(RuntimeError::Transport(text)) if text == "lost"
    ));
    assert_eq!(data_sink.state, KafkaState::Starting);
}

#[test]
fn kafka_endpoint_stays_added_without_instruments() {
    let mut environment = environment(3);
    let mut stream = sink(&mut environment, 3);
    let mut data_sink = RdkafkaKafkaDataSink::from_stream(&stream, &environment).ok().unwrap();
    let lost = Err(RuntimeError::Transport("lost".to_owned()));
    assert!(matches!(
        make_rdkafka_kafka_endpoint_consumer(
            &mut stream,
            &mut data_sink,
            None,
            &environment,
            lost
        ),
        Err(RuntimeError::Transport(text)) if text == "lost"
    ));
    assert_eq!(data_sink.endpoints.len(), 1);
    assert!(stream.consume(MessageContext::background(), Payload::new(1)).is_none());
}
