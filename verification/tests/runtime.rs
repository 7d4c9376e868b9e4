use servicelib::runtime::common::{MessageContext, Payload};
use servicelib::runtime::config::{
    CallSemantics, CustomDataConnectorConfig, CustomEndpointConfig, HttpMethodType, LinkConfig,
    RuntimeConfig, RuntimeDataConnectorConfig, RuntimeEndpointConfig, RuntimeStreamConfig,
    StreamConfig,
};
use servicelib::runtime::datasink::SinkStreamContext;
use servicelib::runtime::environment::RuntimeEnvironment;
use servicelib::runtime::error::{Fault, HandlerError, RuntimeError};
use servicelib::runtime::lifecycle::LifecycleState;
use servicelib::runtime::lookup::{connector_of, endpoint_of, Side};
use servicelib::runtime::metrics::{endpoint_scope, event_label, instrument, InstrumentKind};
use servicelib::runtime::request::{push_request_end, succeeded, Action, Metric};
use servicelib::runtime::store::PendingTable;
use servicelib::runtime::stream::{Collected, Stream};
use servicelib::runtime::string_map::StringMap;
use servicelib::runtime::telemetry::{start_http_span, start_span, SpanKind, TracingLabels};
use servicelib::runtime::text::{integer, is_blank, natural, same_text, trim_trailing};

fn stream_config(id: i32, name: &str) -> StreamConfig {
    StreamConfig { id, name: name.to_owned(), id_service: 1 }
}

fn config() -> RuntimeConfig {
    RuntimeConfig {
        service_id: Some(9),
        default_semantics: CallSemantics::TaskPool,
        streams: vec![RuntimeStreamConfig::Plain(stream_config(4, "four"))],
        links: vec![LinkConfig { from: 1, to: 2, call_semantics: CallSemantics::PriorityTaskPool }],
        endpoints: vec![RuntimeEndpointConfig::Custom(CustomEndpointConfig {
            id: 3,
            name: "local".to_owned(),
            id_data_connector: 5,
        })],
        data_connectors: vec![RuntimeDataConnectorConfig::Custom(CustomDataConnectorConfig {
            id: 5,
            name: "connector".to_owned(),
        })],
    }
}

fn invalid_text<T>(result: Result<T, RuntimeError>) -> String {
    match result {
        Err(RuntimeError::InvalidConfiguration(text)) => text,
        _ => panic!("expected a configuration error"),
    }
}

#[test]
fn numbers_are_written_in_decimal() {
    assert_eq!(natural(0), "0");
    assert_eq!(natural(1090), "1090");
    assert_eq!(natural(u64::MAX), u64::MAX.to_string());
    assert_eq!(integer(7), "7");
    assert_eq!(integer(-41), "-41");
    assert_eq!(integer(i32::MIN), i32::MIN.to_string());
}

#[test]
fn blank_texts_hold_white_space_only() {
    assert!(is_blank(""));
    assert!(is_blank(" \t\n\u{2003}"));
    assert!(!is_blank(" x "));
    for c in '\0'..=char::MAX {
        let listed = matches!(
            c,
            '\u{9}'..='\u{d}'
                | ' '
                | '\u{85}'
                | '\u{a0}'
                | '\u{1680}'
                | '\u{2000}'..='\u{200a}'
                | '\u{2028}'
                | '\u{2029}'
                | '\u{202f}'
                | '\u{205f}'
                | '\u{3000}'
        );
        assert_eq!(is_blank(c.encode_utf8(&mut [0; 4])), listed);
    }
}

#[test]
fn trailing_characters_are_dropped() {
    assert_eq!(trim_trailing("http://host//", '/'), "http://host");
    assert_eq!(trim_trailing("/a/b", '/'), "/a/b");
    assert_eq!(trim_trailing("///", '/'), "");
    assert!(same_text("abc", "abc"));
    assert!(!same_text("abc", "abd"));
}

#[test]
fn string_map_keeps_the_last_value() {
    let mut map = StringMap::new();
    assert_eq!(map.insert("a".to_owned(), 1), None);
    assert_eq!(map.insert("b".to_owned(), 2), None);
    assert_eq!(map.insert("a".to_owned(), 3), Some(1));
    assert_eq!(map.len(), 2);
    assert_eq!(map.get("a"), Some(&3));
    assert_eq!(map.remove("a"), Some(3));
    assert_eq!(map.remove("a"), None);
    let mut other = StringMap::new();
    for (key, value) in [("b", "new"), ("c", "3")] {
        other.insert(key.to_owned(), value.to_owned());
    }
    let mut texts = StringMap::new();
    texts.insert("a".to_owned(), "1".to_owned());
    texts.insert("b".to_owned(), "old".to_owned());
    texts.extend(&other);
    assert_eq!(texts.len(), 3);
    assert_eq!(texts.get("a").unwrap(), "1");
    assert_eq!(texts.get("b").unwrap(), "new");
    assert_eq!(texts.get("c").unwrap(), "3");
    assert!(map.contains_key("b"));
    assert!(!map.contains_key("a"));
}

#[test]
fn pending_table_refuses_a_duplicate() {
    let mut table = PendingTable::new();
    let first = table.set("a".to_owned()).unwrap();
    assert_eq!(table.set("a".to_owned()), None);
    assert_eq!(table.get("a"), Some(first));
    assert_eq!(table.get_or_create("a".to_owned()), (first, false));
    let (second, created) = table.get_or_create("b".to_owned());
    assert!(created);
    assert_ne!(first, second);
    assert_eq!(table.pop("b"), Some(second));
    assert_eq!(table.pop("b"), None);
}

#[test]
fn late_end_keeps_the_successor() {
    let mut table = PendingTable::new();
    let first = table.set("a".to_owned()).unwrap();
    let second = table.replace("a".to_owned());
    assert!(!table.pop_if("a", first));
    assert_eq!(table.get("a"), Some(second));
    assert!(table.pop_if("a", second));
    assert_eq!(table.get("a"), None);
}

#[test]
fn missing_endpoint_names_the_stream() {
    let config = config();
    assert_eq!(
        invalid_text(endpoint_of(&config, Side::Sink, 8, "or\"ders")),
        "endpoint 8 referenced by sink stream \"or\\\"ders\" is not configured"
    );
    assert_eq!(
        invalid_text(endpoint_of(&config, Side::Input, -1, "orders")),
        "endpoint -1 referenced by input stream \"orders\" is not configured"
    );
    assert_eq!(endpoint_of(&config, Side::Sink, 3, "orders").ok().unwrap().name(), "local");
}

#[test]
fn missing_connector_names_the_endpoint() {
    let config = config();
    assert_eq!(
        invalid_text(connector_of(&config, 6, "local")),
        "data connector 6 referenced by endpoint \"local\" is not configured"
    );
    assert_eq!(connector_of(&config, 5, "local").ok().unwrap().name(), "connector");
}

#[test]
fn environment_answers_from_its_configuration() {
    let mut environment = RuntimeEnvironment::new(config(), true, false);
    assert!(environment.tracing_enabled());
    assert!(!environment.metrics_enabled());
    assert_eq!(environment.service_id(), Some(9));
    assert_eq!(environment.stream_name(4), "four");
    assert_eq!(environment.stream_name(5), "");
    let mut changed = config();
    changed.service_id = None;
    environment.reload(changed);
    assert_eq!(environment.service_id(), None);
}

#[test]
fn configured_links_override_the_default_semantics() {
    let config = config();
    assert_eq!(config.call_semantics(1, 2), CallSemantics::PriorityTaskPool);
    assert_eq!(config.call_semantics(2, 1), CallSemantics::TaskPool);
    assert!(CallSemantics::TaskPool.is_async());
    assert!(CallSemantics::PriorityTaskPool.is_async());
    assert!(!CallSemantics::FunctionCall.is_async());
}

#[test]
fn stream_takes_one_consumer() {
    let mut environment = RuntimeEnvironment::new(config(), false, false);
    let stream: Stream<u32> = Stream::new(&stream_config(1, "one"), &mut environment);
    assert_eq!(stream.name(&environment), "one");
    assert!(stream.link_collector(&environment).is_none());
    assert!(stream.try_set_consumer(&mut environment, 2).is_ok());
    match stream.try_set_consumer(&mut environment, 3) {
        Err(RuntimeError::ConsumerAlreadySet { stream }) => assert_eq!(stream, "one"),
        _ => panic!("expected a refusal"),
    }
    let link = stream.link_collector(&environment).unwrap();
    assert_eq!(link.consumer, 2);
    assert_eq!(link.semantics, CallSemantics::PriorityTaskPool);
    assert_eq!(environment.graph_links().len(), 1);
}

#[test]
fn derived_stream_shares_the_serde() {
    let mut environment = RuntimeEnvironment::new(config(), false, false);
    let first: Stream<u32> = Stream::new(&stream_config(1, "one"), &mut environment);
    let serde = first.get_serde(&environment);
    let second: Stream<u32> = Stream::derived(&stream_config(2, "two"), &mut environment, serde);
    let third: Stream<u32> = Stream::with_ids(40, 4, &mut environment);
    assert_eq!(second.get_serde(&environment), serde);
    assert_ne!(third.get_serde(&environment), serde);
    assert_eq!(third.id(), 40);
    assert_eq!(third.name(&environment), "four");
}

#[test]
fn collector_keeps_order() {
    let mut environment = RuntimeEnvironment::new(config(), false, false);
    let stream: Stream<u32> = Stream::new(&stream_config(1, "one"), &mut environment);
    let emissions = stream.collector().out_all(vec![
        Collected { context: MessageContext::background(), value: 5 },
        Collected { context: MessageContext::background().with_sampling(true), value: 6 },
    ]);
    assert_eq!(emissions.len(), 2);
    assert_eq!(*emissions[0].payload.get(), 5);
    assert_eq!(*emissions[1].payload.get(), 6);
    assert!(emissions[1].context.sampling_enabled());
    assert_eq!(emissions[1].stream.id(), 1);
}

#[test]
fn payload_value_is_taken_or_copied() {
    let payload = Payload::new("x".to_owned());
    let (left, right) = payload.share();
    assert_eq!(left.into_value(), "x");
    assert_eq!(right.get(), "x");
    assert_eq!(right.into_value(), "x");
}

#[test]
fn message_context_carries_its_marks() {
    let context = MessageContext::background();
    assert!(context.stream_id().is_none());
    assert!(!context.is_cancelled());
    assert!(!context.sampling_enabled());
    assert_eq!(context.remaining(), None);
    let context = context
        .with_stream_id("id".to_owned())
        .with_cancellation(true)
        .with_sampling(true)
        .with_remaining(Some(12));
    let copy = context.clone();
    assert_eq!(copy.stream_id().unwrap(), "id");
    assert!(copy.is_cancelled());
    assert!(copy.sampling_enabled());
    assert_eq!(copy.remaining(), Some(12));
}

#[test]
fn sink_results_and_errors_go_to_their_streams() {
    let mut environment = RuntimeEnvironment::new(config(), false, false);
    let results: Stream<u32> = Stream::new(&stream_config(1, "one"), &mut environment);
    let errors: Stream<String> = Stream::new(&stream_config(2, "two"), &mut environment);
    let context = SinkStreamContext::new(results, errors);
    assert_eq!(context.result_stream().id(), 1);
    let result = context.collect(MessageContext::background(), 8);
    assert_eq!((result.stream.id(), *result.payload.get()), (1, 8));
    let error = context.error_collect(MessageContext::background(), "bad".to_owned());
    assert_eq!((error.stream.id(), error.payload.get().as_str()), (2, "bad"));
}

#[test]
fn lifecycle_starts_once() {
    let name = "sink".to_owned();
    assert!(LifecycleState::Idle.check_start(&name).is_ok());
    assert!(matches!(
        LifecycleState::Running.check_start(&name),
        Err(RuntimeError::ResourceAlreadyStarted(text)) if text == "sink"
    ));
    assert!(matches!(
        LifecycleState::Stopped.check_start(&name),
        Err(RuntimeError::ResourceStopped(text)) if text == "sink"
    ));
}

#[test]
fn faults_have_their_texts() {
    let texts = [
        (Fault::GrpcRequestNotSent, "gRPC sink handler did not send a request"),
        (Fault::GrpcClientStreamCancelled, "gRPC client stream context cancelled"),
        (Fault::GrpcRequestCancelled, "gRPC request context cancelled"),
        (Fault::GrpcUnaryCancelled, "gRPC unary request context cancelled"),
        (Fault::GrpcUnaryAlreadySent, "gRPC unary result already sent"),
        (Fault::GrpcDuplicateStream, "duplicate gRPC stream ID"),
        (Fault::HttpRequestNotCreated, "HTTP sink handler did not create a request"),
        (Fault::HttpInvalidMethod, "invalid HTTP method"),
        (Fault::HttpRequestCancelled, "HTTP request context cancelled"),
        (
            Fault::HttpCancelledBeforeDone,
            "HTTP request context cancelled before ResultContext::done",
        ),
        (Fault::KafkaProducerNotRunning, "Kafka producer is not running"),
        (Fault::KafkaMessageCancelled, "Kafka message context cancelled"),
        (Fault::LocalCancelledBeforeDone, "request context cancelled before ResultContext::done"),
        (Fault::PendingDuplicate, "duplicate pending request"),
    ];
    for (fault, text) in texts {
        assert_eq!(fault.text(), text);
    }
}

#[test]
fn spans_follow_sampling_and_the_engine() {
    let with_engine = RuntimeEnvironment::new(config(), true, false);
    let without_engine = RuntimeEnvironment::new(config(), false, false);
    let labels = TracingLabels {
        stream: "orders".to_owned(),
        pipeline: "shop".to_owned(),
        component: "web".to_owned(),
    };
    let plain = MessageContext::background();
    let sampled = MessageContext::background().with_sampling(true);
    assert!(start_span(SpanKind::HttpOutput, &plain, &with_engine, &labels, "e").is_none());
    assert!(start_span(SpanKind::HttpOutput, &sampled, &without_engine, &labels, "e").is_none());
    let span = start_span(SpanKind::HttpOutput, &sampled, &with_engine, &labels, "e").unwrap();
    assert_eq!((span.name, span.stream.as_str()), ("http.output", "orders"));
    assert_eq!(span.endpoint, "e");
    assert_eq!(span.pipeline.as_deref(), Some("shop"));
    assert_eq!(span.component.as_deref(), Some("web"));
    assert_eq!(span.method, None);
    let span = start_span(SpanKind::SplitOperator, &sampled, &with_engine, &labels, "e").unwrap();
    assert_eq!((span.name, span.endpoint.as_str()), ("stream.split", "orders"));
    let span = start_span(SpanKind::KafkaInput, &sampled, &without_engine, &labels, "topic");
    let span = span.unwrap();
    assert_eq!((span.name, span.endpoint.as_str()), ("kafka.input", "topic"));
    assert_eq!((span.pipeline, span.component), (None, None));
    let span = start_span(SpanKind::LocalInput, &sampled, &without_engine, &labels, "e").unwrap();
    assert_eq!((span.stream.as_str(), span.endpoint.as_str()), ("orders", "orders"));
    let span = start_http_span(&sampled, &without_engine, &labels, "e", "GET", "/orders").unwrap();
    assert_eq!((span.name, span.endpoint.as_str()), ("http.input", "e"));
    assert_eq!((span.method.as_deref(), span.path.as_deref()), (Some("GET"), Some("/orders")));
    assert!(start_http_span(&plain, &with_engine, &labels, "e", "GET", "/orders").is_none());
}

#[test]
fn metrics_name_their_instruments() {
    let found = instrument(Side::Sink, Metric::MessagesTotal).unwrap();
    assert_eq!(found.kind, InstrumentKind::Counter);
    assert_eq!(found.name, "messages_total");
    assert_eq!(
        found.help,
        "Total number of successfully processed messages in data sink endpoint"
    );
    assert_eq!(found.event, None);
    let found = instrument(Side::Input, Metric::ActiveDown).unwrap();
    assert_eq!(found.kind, InstrumentKind::Gauge);
    assert_eq!(found.name, "active_requests");
    let found = instrument(Side::Input, Metric::Duration).unwrap();
    assert_eq!(found.kind, InstrumentKind::Histogram);
    let found = instrument(Side::Input, Metric::LateResult).unwrap();
    assert_eq!(found.name, "events_total");
    assert_eq!(found.event, Some("late_result"));
    assert!(instrument(Side::Sink, Metric::CallStarted).is_none());
    assert_eq!(event_label(Metric::InvalidHttpMethod), Some("invalid_http_method"));
    let scope = endpoint_scope(Side::Sink, "c", "e", Some("http"));
    assert_eq!(scope.name, "datasink_endpoint");
    assert_eq!(
        scope.labels,
        vec![
            ("connector", "c".to_owned()),
            ("endpoint", "e".to_owned()),
            ("protocol", "http".to_owned())
        ]
    );
    assert_eq!(endpoint_scope(Side::Input, "c", "e", None).labels.len(), 2);
}

#[test]
fn request_end_counts_success_or_failure() {
    let mut actions: Vec<Action<u32, u32, u32>> = vec![];
    push_request_end(&mut actions, true, true);
    let metrics: Vec<Metric> = actions
        .iter()
        .map(|action| match action {
            Action::Record(metric) => *metric,
            _ => panic!("expected a metric"),
        })
        .collect();
    assert_eq!(metrics, vec![Metric::ActiveDown, Metric::Duration, Metric::MessagesTotal]);
    let mut actions: Vec<Action<u32, u32, u32>> = vec![];
    push_request_end(&mut actions, false, false);
    assert_eq!(actions.len(), 2);
    assert!(matches!(actions[1], Action::Record(Metric::RequestError)));
    assert!(succeeded::<u32, u32>(&Ok(1)));
    assert!(!succeeded::<u32, u32>(&Err(HandlerError::Raised(1))));
}

#[test]
fn http_methods_have_their_names() {
    assert_eq!(HttpMethodType::Get.name(), "GET");
    assert_eq!(HttpMethodType::Patch.name(), "PATCH");
    assert_eq!(HttpMethodType::Connect.name(), "CONNECT");
}
