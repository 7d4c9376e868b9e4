use axum::http::{HeaderMap, HeaderValue};

use servicelib::datasource::concurrency::{Admission, Concurrency};
use servicelib::datasource::delivery::{DeliveryPhase, ResultDelivery};
use servicelib::datasource::endpoint::SetUp;
use servicelib::datasource::grpc::{
    make_grpc_client_streaming_endpoint_consumer, make_grpc_no_streaming_endpoint_consumer,
    make_grpc_server_streaming_endpoint_consumer, unary_reply, GrpcEvent, GrpcMode, GrpcPhase,
    GrpcRequest, TonicDataSource, TonicDataSourceOptions, UnarySender,
};
use servicelib::datasource::http::{
    make_endpoint_consumer, request_context, request_metadata, AxumDataSource, EndpointConsumer,
    HandlerData, Preliminary,
};
use servicelib::datasource::kafka::{
    endpoint_client, loop_step, make_client_config, make_rdkafka_kafka_endpoint_consumer,
    ConsumerMessage, KafkaEndpointLifecycle, Lanes, LoopAction, LoopEvent, RdkafkaKafkaDataSource,
    StartNext,
};
use servicelib::datasource::localsource::make_custom_endpoint_consumer;
use servicelib::datasource::request::{
    identify, SourceEvent, SourceKind, SourcePhase, SourceRequest,
};
use servicelib::datasource::results::ResultContext;
use servicelib::operators::InputStream;
use servicelib::runtime::common::{MessageContext, Payload};
use servicelib::runtime::config::{
    CallSemantics, CustomDataConnectorConfig, CustomEndpointConfig, GrpcDataConnectorConfig,
    GrpcEndpointConfig, HttpDataConnectorConfig, HttpEndpointConfig, HttpMethodType,
    InputStreamConfig, KafkaDataConnectorConfig, KafkaEndpointConfig, KafkaSaslMechanism,
    KafkaSecurityProtocol, RuntimeConfig, RuntimeDataConnectorConfig, RuntimeEndpointConfig,
    RuntimeStreamConfig, StreamConfig,
};
use servicelib::runtime::environment::RuntimeEnvironment;
use servicelib::runtime::error::{Fault, HandlerError, RuntimeError};
use servicelib::runtime::request::{Action, Metric};
use servicelib::runtime::store::PendingTable;
use servicelib::runtime::stream::Stream;

type Input = InputStream<u32, u64, String, i32>;

fn named(id: i32, name: &str) -> StreamConfig {
    StreamConfig { id, name: name.to_owned(), id_service: 1 }
}

fn input_config(endpoint_id: i32) -> InputStreamConfig {
    InputStreamConfig { stream: named(7, "orders"), endpoint_id }
}

fn grpc_connector() -> GrpcDataConnectorConfig {
    GrpcDataConnectorConfig {
        id: 1,
        name: "rpc".to_owned(),
        address: "127.0.0.1:9000".to_owned(),
        connections_count: 1,
    }
}

fn environment(endpoint_id: i32) -> RuntimeEnvironment {
    let config = RuntimeConfig {
        service_id: Some(1),
        default_semantics: CallSemantics::FunctionCall,
        streams: vec![RuntimeStreamConfig::Input(input_config(endpoint_id))],
        links: vec![],
        endpoints: vec![
            RuntimeEndpointConfig::Grpc(GrpcEndpointConfig {
                id: 3,
                name: "Place".to_owned(),
                id_data_connector: 1,
            }),
            RuntimeEndpointConfig::Custom(CustomEndpointConfig {
                id: 4,
                name: "local".to_owned(),
                id_data_connector: 2,
            }),
            RuntimeEndpointConfig::Grpc(GrpcEndpointConfig {
                id: 5,
                name: "Lost".to_owned(),
                id_data_connector: 9,
            }),
        ],
        data_connectors: vec![
            RuntimeDataConnectorConfig::Grpc(grpc_connector()),
            RuntimeDataConnectorConfig::Custom(CustomDataConnectorConfig {
                id: 2,
                name: "process".to_owned(),
            }),
        ],
    };
    RuntimeEnvironment::new(config, false, true)
}

fn input(environment: &mut RuntimeEnvironment, endpoint_id: i32, results: bool) -> Input {
    let mut input: Input = InputStream::new(input_config(endpoint_id), environment);
    if results {
        let stream: Stream<u64> = Stream::new(&named(8, "results"), environment);
        assert!(input.set_source(&stream, environment).is_ok());
    }
    input
}

fn background() -> MessageContext {
    MessageContext::background()
}

fn kinds<V>(actions: &[Action<V, (), ()>]) -> Vec<String> {
    actions
        .iter()
        .map(|action| match action {
            Action::BeginRequest { .. } => "begin".to_owned(),
            Action::ConsumeMessage { .. } => "consume".to_owned(),
            Action::EndRequest { .. } => "end".to_owned(),
            Action::Receive => "receive".to_owned(),
            Action::Drain => "drain".to_owned(),
            Action::Eof { .. } => "eof".to_owned(),
            Action::AwaitResponse => "await response".to_owned(),
            Action::AwaitDone => "await done".to_owned(),
            Action::Forget => "forget".to_owned(),
            Action::Record(metric) => format!("{metric:?}"),
            _ => "other".to_owned(),
        })
        .collect()
}

fn invalid_text<T>(result: Result<T, RuntimeError>) -> String {
    match result {
        Err(RuntimeError::InvalidConfiguration(text)) => text,
        _ => panic!("expected a configuration error"),
    }
}

#[test]
fn concurrency_admits_up_to_the_limit() {
    let mut concurrency = Concurrency::new();
    assert_eq!(concurrency.acquire(1), Admission::Admitted);
    assert_eq!(concurrency.acquire(1), Admission::Wait);
    assert_eq!(concurrency.acquire(0), Admission::Admitted);
    concurrency.release();
    concurrency.release();
    assert_eq!(concurrency.acquire(1), Admission::Admitted);
    concurrency.stop();
    assert_eq!(concurrency.acquire(0), Admission::Stopped);
    concurrency.start();
    assert_eq!(concurrency.acquire(2), Admission::Admitted);
}

#[test]
fn contexts_get_a_stream_id_once() {
    let (context, id) = identify(background(), "fresh".to_owned());
    assert_eq!((context.stream_id().unwrap().as_str(), id.as_str()), ("fresh", "fresh"));
    let (context, id) = identify(context, "other".to_owned());
    assert_eq!((context.stream_id().unwrap().as_str(), id.as_str()), ("fresh", "fresh"));
}

fn waiting(kind: SourceKind) -> SourceRequest<u32, &'static str> {
    let (request, actions) = SourceRequest::open(kind, true, background(), 5);
    assert_eq!(kinds(&actions), vec!["begin"]);
    let (request, actions) = request.step(SourceEvent::Begun {
        begun: Ok(background()),
        has_result: true,
        registered: true,
    });
    assert_eq!(kinds(&actions), vec!["ActiveUp", "PendingUp", "consume"]);
    let (request, actions) = request.step(SourceEvent::Consumed(Ok(())));
    assert_eq!(kinds(&actions), vec!["await done"]);
    request
}

#[test]
fn pending_request_is_left_before_its_end() {
    let (request, actions) = waiting(SourceKind::Http).step(SourceEvent::Done);
    assert_eq!(kinds(&actions), vec!["forget", "PendingDown", "drain"]);
    let (request, actions) = request.step(SourceEvent::Drained { done: true });
    assert_eq!(kinds(&actions), vec!["end", "ActiveDown", "Duration", "MessagesTotal"]);
    assert!(matches!(request.result(), Some(Ok(()))));
    let (_, actions) = waiting(SourceKind::Kafka).step(SourceEvent::Done);
    assert_eq!(kinds(&actions), vec!["PendingDown", "forget", "drain"]);
}

#[test]
fn cancelled_request_fails() {
    for (kind, fault) in [
        (SourceKind::Http, Fault::HttpCancelledBeforeDone),
        (SourceKind::Kafka, Fault::KafkaMessageCancelled),
        (SourceKind::Local, Fault::LocalCancelledBeforeDone),
    ] {
        let (request, _) = waiting(kind).step(SourceEvent::Cancelled);
        let (request, actions) = request.step(SourceEvent::Drained { done: false });
        assert_eq!(kinds(&actions), vec!["end", "ActiveDown", "Duration", "RequestError"]);
        assert!(matches!(
            request.result(),
            Some(Err(HandlerError::Fault(found))) if *found == fault
        ));
    }
}

#[test]
fn local_request_that_is_done_late_succeeds() {
    let (request, _) = waiting(SourceKind::Local).step(SourceEvent::Cancelled);
    let (request, _) = request.step(SourceEvent::Drained { done: true });
    assert!(matches!(request.result(), Some(Ok(()))));
    let (request, _) = waiting(SourceKind::Http).step(SourceEvent::Cancelled);
    let (request, _) = request.step(SourceEvent::Drained { done: true });
    assert!(matches!(request.result(), Some(Err(_))));
}

#[test]
fn request_without_results_ends_with_its_handler() {
    let (request, _) = SourceRequest::<u32, &str>::open(
        SourceKind::Local,
        false,
        background(),
        5,
    );
    let (request, actions) = request.step(SourceEvent::Begun {
        begun: Ok(background()),
        has_result: false,
        registered: false,
    });
    assert_eq!(kinds(&actions), vec!["ActiveUp", "consume"]);
    let (request, actions) = request.step(SourceEvent::Consumed(Err(HandlerError::Raised("bad"))));
    assert_eq!(kinds(&actions), vec!["end", "ActiveDown", "RequestError"]);
    assert!(matches!(request.result(), Some(Err(HandlerError::Raised("bad")))));
    let (_, actions) = request.step(SourceEvent::Done);
    assert!(actions.is_empty());
}

#[test]
fn source_request_that_fails_to_begin_has_no_end() {
    let (request, _) =
        SourceRequest::<u32, &str>::open(SourceKind::Local, true, background(), 5);
    let (request, actions) = request.step(SourceEvent::Begun {
        begun: Err(HandlerError::Raised("no")),
        has_result: true,
        registered: false,
    });
    assert_eq!(kinds(&actions), vec!["BeginRequestFailed"]);
    assert!(matches!(request.phase, SourcePhase::Finished { result: None }));
}

#[test]
fn kafka_requests_do_not_share_a_stream_id() {
    let mut environment = environment(3);
    let mut input = input(&mut environment, 3, true);
    let mut consumer = make_rdkafka_kafka_endpoint_consumer(
        &mut input,
        &kafka_endpoint(3, "a"),
        &kafka_connector(),
        &mut environment,
        SetUp::ready(),
    )
    .ok()
    .unwrap();
    let message = || ConsumerMessage::new(None, vec![], "a".to_owned(), 0, 9);
    let context = background().with_stream_id("s".to_owned());
    let (first, _) = consumer
        .endpoint_request::<&str>(0, background(), message())
        .ok()
        .unwrap();
    let (_, _, entry) = consumer.begin(&input, first, Ok(context.clone()), "x".to_owned());
    assert_eq!(entry.unwrap().stream_id, "s");
    let (second, _) = consumer
        .endpoint_request::<&str>(0, background(), message())
        .ok()
        .unwrap();
    let (second, actions, entry) = consumer.begin(&input, second, Ok(context), "y".to_owned());
    assert!(entry.unwrap().token.is_none());
    assert_eq!(
        kinds(&actions),
        vec!["ActiveUp", "end", "ActiveDown", "Duration", "RequestError"]
    );
    assert!(matches!(
        second.result(),
        Some(Err(HandlerError::Fault(Fault::PendingDuplicate)))
    ));
    consumer.release();
    consumer.stop();
    assert!(matches!(
        consumer.endpoint_request::<&str>(0, background(), message()),
        Err((Admission::Stopped, returned)) if returned.offset == 9
    ));
    consumer.start();
    assert!(matches!(
        consumer.endpoint_request::<&str>(1, background(), message()),
        Err((Admission::Wait, _))
    ));
}

#[test]
fn http_requests_replace_one_another() {
    let mut environment = environment(3);
    let mut input = input(&mut environment, 3, true);
    let mut consumer = make_endpoint_consumer(
        &mut input,
        &http_endpoint("/orders", HttpMethodType::Post),
        "web",
        &mut environment,
        SetUp::ready(),
    )
    .ok()
    .unwrap();
    assert_eq!(consumer.base.scope.labels[2].1, "http");
    let context = background().with_stream_id("s".to_owned());
    let (first, _) = consumer.serve_http::<&str>(background());
    let (_, _, first) = consumer.begin(&input, first, Ok(context.clone()), "x".to_owned());
    let (second, _) = consumer.serve_http::<&str>(background());
    let (_, actions, second) = consumer.begin(&input, second, Ok(context.clone()), "y".to_owned());
    assert_eq!(kinds(&actions), vec!["ActiveUp", "PendingUp", "consume"]);
    let (first, second) = (first.unwrap().token.unwrap(), second.unwrap().token.unwrap());
    assert_ne!(first, second);
    assert_eq!(consumer.base.pending.get("s"), Some(second));
    assert_eq!(consumer.base.forget("s"), Some(second));
    let (delivery, metric) = consumer.base.consume_result(&context);
    assert!(matches!(delivery.phase, DeliveryPhase::Finished));
    assert_eq!(metric, Some(Metric::LateResult));
}

#[test]
fn local_endpoint_serves_under_the_name_of_its_input() {
    let mut environment = environment(4);
    let mut input = input(&mut environment, 4, false);
    let mut source = make_custom_endpoint_consumer(&mut input, &mut environment, SetUp::ready())
        .ok()
        .unwrap();
    let consumer = &mut source.endpoint_consumer;
    assert_eq!(consumer.base.endpoint_name, "orders");
    assert_eq!(consumer.base.scope.labels[0].1, "custom");
    assert!(consumer.timed);
    let (request, actions) = consumer
        .endpoint_request::<u32, &str>(2, background(), 5)
        .ok()
        .unwrap();
    assert_eq!(kinds(&actions), vec!["begin"]);
    let (_, actions, entry) = consumer.begin(&input, request, Ok(background()), "fresh".to_owned());
    assert_eq!(kinds(&actions), vec!["ActiveUp", "consume"]);
    let entry = entry.unwrap();
    assert_eq!((entry.stream_id.as_str(), entry.token), ("fresh", None));
    consumer.release();
    assert!(source.start().is_ok());
    assert!(source.stop().awaited);
    assert!(source.cancelled);
    assert!(!source.stop().awaited);
    assert!(source
        .endpoint_consumer
        .endpoint_request::<u32, &str>(2, background(), 5)
        .is_err());
}

#[test]
fn result_goes_to_the_request_that_is_pending() {
    let mut pending = PendingTable::new();
    let mut results: ResultContext<&str> = ResultContext::new();
    results.set_result_callback("m".to_owned(), "callback");
    let context = background().with_stream_id("s".to_owned());
    let (_, metric) = ResultDelivery::begin(&pending, &background());
    assert_eq!(metric, Some(Metric::MissingStreamId));
    let (_, metric) = ResultDelivery::begin(&pending, &context);
    assert_eq!(metric, Some(Metric::LateResult));
    pending.set("s".to_owned());
    let (delivery, metric) = ResultDelivery::begin(&pending, &context);
    assert_eq!(metric, None);
    let (delivery, metric) = delivery.held(&pending);
    assert_eq!(metric, None);
    let (delivery, metric) = delivery.identified(&results, "m".to_owned());
    assert_eq!(metric, None);
    assert_eq!(results.find_callback("m").ok(), Some(&"callback"));
    let (_, metric) = delivery.called(&mut results, true);
    assert_eq!(metric, None);
    assert_eq!(results.find_callback("m").err(), Some(Metric::UnknownMessageId));
    assert_eq!(results.settle_callback("m", true), Some(Metric::DuplicateMessageId));
    assert!(!results.is_done());
    results.done();
    assert!(results.is_done());
}

#[test]
fn left_request_gets_no_result() {
    let mut pending = PendingTable::new();
    let context = background().with_stream_id("s".to_owned());
    pending.set("s".to_owned());
    let (delivery, _) = ResultDelivery::begin(&pending, &context);
    pending.replace("s".to_owned());
    let (delivery, metric) = delivery.held(&pending);
    assert_eq!(metric, Some(Metric::LateResult));
    assert!(matches!(delivery.phase, DeliveryPhase::Finished));
}

#[test]
fn result_without_a_callback_is_unknown() {
    let mut pending = PendingTable::new();
    let mut results: ResultContext<u8> = ResultContext::new();
    pending.set("s".to_owned());
    let context = background().with_stream_id("s".to_owned());
    let (delivery, _) = ResultDelivery::begin(&pending, &context);
    let (delivery, _) = delivery.held(&pending);
    let (_, metric) = delivery.identified(&results, "m".to_owned());
    assert_eq!(metric, Some(Metric::UnknownMessageId));
    results.set_result_callback("m".to_owned(), 1);
    assert_eq!(results.settle_callback("m", false), None);
    assert!(results.find_callback("m").is_ok());
}

type Rpc = GrpcRequest<u32, String, &'static str>;

#[test]
fn unary_call_waits_for_its_response() {
    let mut environment = environment(3);
    let mut input = input(&mut environment, 3, true);
    let mut consumer = make_grpc_no_streaming_endpoint_consumer(
        &mut input,
        "rpc",
        "Place",
        &mut environment,
        SetUp::ready(),
    )
    .ok()
    .unwrap();
    let (request, _): (Rpc, _) = consumer.handle(background(), 4);
    let (request, actions, entry) =
        consumer.endpoint_consumer.begin(&input, request, Ok(background()), "fresh".to_owned());
    assert_eq!(kinds(&actions), vec!["ActiveUp", "PendingUp", "consume"]);
    assert!(entry.unwrap().token.is_some());
    let (request, actions) =
        consumer.endpoint_consumer.report(&input, request, GrpcEvent::Consumed(Ok(background())));
    assert_eq!(kinds(&actions), vec!["eof"]);
    let (request, actions) =
        consumer.endpoint_consumer.report(&input, request, GrpcEvent::EofHandled);
    assert_eq!(kinds(&actions), vec!["await response"]);
    let (request, actions) =
        consumer.endpoint_consumer.report(&input, request, GrpcEvent::Answered(Ok("yes".to_owned())));
    assert_eq!(kinds(&actions), vec!["forget", "PendingDown", "drain"]);
    let (request, actions) = consumer.endpoint_consumer.report(&input, request, GrpcEvent::Drained);
    assert_eq!(kinds(&actions), vec!["end"]);
    let (request, actions) =
        consumer.endpoint_consumer.report(&input, request, GrpcEvent::Ended(Ok(())));
    assert_eq!(kinds(&actions), vec!["ActiveDown", "Duration", "MessagesTotal"]);
    assert!(matches!(
        request.phase,
        GrpcPhase::Finished { began: true, result: Ok(()), response: Some(text) } if text == "yes"
    ));
}

#[test]
fn client_stream_is_read_to_its_end() {
    let mut environment = environment(3);
    let mut input = input(&mut environment, 3, false);
    let mut consumer = make_grpc_client_streaming_endpoint_consumer(
        &mut input,
        "rpc",
        "Place",
        &mut environment,
        SetUp::ready(),
    )
    .ok()
    .unwrap();
    let (request, _): (Rpc, _) = consumer.handle(background());
    let (request, actions, _) =
        consumer.endpoint_consumer.begin(&input, request, Ok(background()), "fresh".to_owned());
    assert_eq!(kinds(&actions), vec!["ActiveUp", "receive"]);
    let (request, actions) =
        consumer.endpoint_consumer.report(&input, request, GrpcEvent::Received(Some(Ok(1))));
    assert_eq!(kinds(&actions), vec!["consume"]);
    let (request, actions) =
        consumer.endpoint_consumer.report(&input, request, GrpcEvent::Consumed(Ok(background())));
    assert_eq!(kinds(&actions), vec!["receive"]);
    let (request, actions) =
        consumer.endpoint_consumer.report(&input, request, GrpcEvent::Received(None));
    assert_eq!(kinds(&actions), vec!["eof"]);
    let (request, actions) =
        consumer.endpoint_consumer.report(&input, request, GrpcEvent::EofHandled);
    assert_eq!(kinds(&actions), vec!["end"]);
    assert!(matches!(request.outcome(), Some(Ok(()))));
    let (request, _) = consumer.endpoint_consumer.report(&input, request, GrpcEvent::Ended(Ok(())));
    assert!(matches!(
        request.phase,
        GrpcPhase::Finished { began: true, result: Ok(()), response: None }
    ));
}

#[test]
fn broken_client_stream_fails_the_request() {
    let (request, _): (Rpc, _) =
        GrpcRequest::open(GrpcMode::ClientStreaming, background(), None);
    let (request, _) =
        request.step(GrpcEvent::Begun { begun: Ok(background()), registered: false }, false);
    let (request, actions) =
        request.step(GrpcEvent::Received(Some(Err(HandlerError::Raised("reset")))), false);
    assert_eq!(kinds(&actions), vec!["end"]);
    let (request, actions) = request.step(GrpcEvent::Ended(Ok(())), false);
    assert_eq!(kinds(&actions), vec!["ActiveDown", "Duration", "RequestError"]);
    assert!(matches!(
        request.phase,
        GrpcPhase::Finished { result: Err(HandlerError::Raised("reset")), .. }
    ));
}

#[test]
fn server_stream_waits_until_it_is_done() {
    let mut environment = environment(3);
    let mut input = input(&mut environment, 3, true);
    let mut consumer = make_grpc_server_streaming_endpoint_consumer(
        &mut input,
        "rpc",
        "Place",
        &mut environment,
        SetUp::ready(),
    )
    .ok()
    .unwrap();
    let (request, _): (Rpc, _) = consumer.handle(background(), 4);
    let (request, _, _) =
        consumer.endpoint_consumer.begin(&input, request, Ok(background()), "fresh".to_owned());
    let (request, _) =
        consumer.endpoint_consumer.report(&input, request, GrpcEvent::Consumed(Ok(background())));
    let (request, actions) =
        consumer.endpoint_consumer.report(&input, request, GrpcEvent::EofHandled);
    assert_eq!(kinds(&actions), vec!["await done"]);
    let (request, actions) =
        consumer.endpoint_consumer.report(&input, request, GrpcEvent::Cancelled);
    assert_eq!(kinds(&actions), vec!["forget", "PendingDown", "drain"]);
    let (request, _) = consumer.endpoint_consumer.report(&input, request, GrpcEvent::Drained);
    assert!(matches!(
        request.outcome(),
        Some(Err(HandlerError::Fault(Fault::GrpcRequestCancelled)))
    ));
}

#[test]
fn end_failure_prevails() {
    let request: Rpc = GrpcRequest {
        mode: GrpcMode::Unary,
        phase: GrpcPhase::Ending { outcome: Ok(()), response: None },
    };
    let (request, actions) = request.step(GrpcEvent::Ended(Err(HandlerError::Raised("late"))), false);
    assert_eq!(kinds(&actions), vec!["ActiveDown", "Duration", "RequestError"]);
    assert!(matches!(
        request.phase,
        GrpcPhase::Finished { result: Err(HandlerError::Raised("late")), .. }
    ));
}

#[test]
fn duplicate_grpc_stream_is_turned_away() {
    let (request, _): (Rpc, _) =
        GrpcRequest::open(GrpcMode::Unary, background(), Some(4));
    let (request, actions) =
        request.step(GrpcEvent::Begun { begun: Ok(background()), registered: false }, true);
    assert_eq!(kinds(&actions), vec!["ActiveUp", "end"]);
    assert_eq!(request.rejection(), Some(Fault::GrpcDuplicateStream));
    assert!(request.outcome().is_none());
    let (request, actions) = request.step(GrpcEvent::Ended(Ok(())), true);
    assert_eq!(kinds(&actions), vec!["ActiveDown", "Duration", "RequestError"]);
    assert!(matches!(
        request.phase,
        GrpcPhase::Finished { result: Err(HandlerError::Fault(Fault::GrpcDuplicateStream)), .. }
    ));
}

#[test]
fn result_stream_is_seen_when_it_is_set() {
    let mut environment = environment(3);
    let mut input = input(&mut environment, 3, false);
    let mut rpc = make_grpc_no_streaming_endpoint_consumer(
        &mut input,
        "rpc",
        "Place",
        &mut environment,
        SetUp::ready(),
    )
    .ok()
    .unwrap();
    let mut web = make_endpoint_consumer(
        &mut input,
        &http_endpoint("/orders", HttpMethodType::Post),
        "web",
        &mut environment,
        SetUp::ready(),
    )
    .ok()
    .unwrap();
    let (early, _): (Rpc, _) = rpc.handle(background(), 4);
    let (early, actions, _) =
        rpc.endpoint_consumer.begin(&input, early, Ok(background()), "a".to_owned());
    assert_eq!(kinds(&actions), vec!["ActiveUp", "consume"]);
    let (request, _) = web.serve_http::<&str>(background());
    let results: Stream<u64> = Stream::new(&named(8, "results"), &mut environment);
    assert!(input.set_source(&results, &mut environment).is_ok());
    let (_, actions, _) = web.begin(&input, request, Ok(background()), "b".to_owned());
    assert_eq!(kinds(&actions), vec!["ActiveUp", "PendingUp", "consume"]);
    let (early, _) =
        rpc.endpoint_consumer.report(&input, early, GrpcEvent::Consumed(Ok(background())));
    let (early, actions) = rpc.endpoint_consumer.report(&input, early, GrpcEvent::EofHandled);
    assert_eq!(kinds(&actions), vec!["await response"]);
    let (_, actions) =
        rpc.endpoint_consumer.report(&input, early, GrpcEvent::Answered(Ok("yes".to_owned())));
    assert_eq!(kinds(&actions), vec!["forget", "PendingDown", "drain"]);
}

#[test]
fn results_come_from_the_latest_source() {
    let mut environment = environment(3);
    let mut input = input(&mut environment, 3, true);
    assert_eq!(input.result_stream().unwrap().id(), 8);
    let second: Stream<u64> = Stream::new(&named(9, "later"), &mut environment);
    assert!(input.set_source(&second, &mut environment).is_ok());
    input.set_result_consumer(3);
    assert_eq!(input.result_stream().unwrap().id(), 9);
    let mut other: Input = InputStream::new(
        InputStreamConfig { stream: named(17, "others"), endpoint_id: 3 },
        &mut environment,
    );
    let taken: Stream<u64> = Stream::new(&named(10, "taken"), &mut environment);
    assert!(other.set_source(&taken, &mut environment).is_ok());
    assert!(input.set_source(&taken, &mut environment).is_err());
    assert_eq!(input.result_stream().unwrap().id(), 9);
}

#[test]
fn endpoint_id_comes_from_the_configuration() {
    let mut first = environment(4);
    let mut input = input(&mut first, 4, false);
    let source =
        make_custom_endpoint_consumer(&mut input, &mut first, SetUp::ready()).ok().unwrap();
    assert_eq!(source.endpoint_consumer.base.id(&first), 4);
    assert_eq!(source.endpoint_consumer.base.id(&environment(5)), 5);
}

#[test]
fn unary_sender_sends_once() {
    let mut sender: UnarySender<u32> = UnarySender::new();
    assert!(sender.receive::<()>(false).is_none());
    assert!(matches!(
        sender.receive::<()>(true),
        Some(Err(HandlerError::Fault(Fault::GrpcUnaryCancelled)))
    ));
    assert!(sender.send::<()>(3).is_ok());
    assert!(matches!(
        sender.send::<()>(4),
        Err(HandlerError::Fault(Fault::GrpcUnaryAlreadySent))
    ));
    assert!(matches!(sender.receive::<()>(true), Some(Ok(3))));
}

#[test]
fn unary_reply_falls_back_to_the_default() {
    let mut sender: UnarySender<u32> = UnarySender::new();
    assert!(matches!(unary_reply::<_, ()>(Ok(()), None, &mut sender), Ok(0)));
    assert!(sender.send::<()>(3).is_ok());
    assert!(matches!(unary_reply::<_, ()>(Ok(()), Some(9), &mut sender), Ok(9)));
    assert!(matches!(unary_reply::<_, ()>(Ok(()), None, &mut sender), Ok(3)));
    assert!(matches!(
        unary_reply(Err(HandlerError::Raised("no")), Some(1), &mut sender),
        Err(HandlerError::Raised("no"))
    ));
}

#[test]
fn stream_buffers_have_a_capacity() {
    let source = TonicDataSource::from_config(&grpc_connector()).ok().unwrap();
    assert_eq!(source.stream_buffer_capacity(), 16);
    for capacity in [0, usize::MAX / 8 + 1, usize::MAX] {
        let options = TonicDataSourceOptions { stream_buffer_capacity: capacity };
        assert_eq!(
            invalid_text(TonicDataSource::from_config_with_options(&grpc_connector(), options)),
            "gRPC server stream_buffer_capacity is outside the supported channel capacity range"
        );
    }
    let options = TonicDataSourceOptions { stream_buffer_capacity: usize::MAX / 8 };
    assert!(TonicDataSource::from_config_with_options(&grpc_connector(), options).is_ok());
}

#[test]
fn grpc_source_starts_once() {
    let mut environment = environment(3);
    let input = input(&mut environment, 3, false);
    let mut source = TonicDataSource::from_input(&input, &environment).ok().unwrap();
    assert_eq!((source.id(), source.name()), (1, "rpc"));
    assert!(source.start().is_ok());
    assert!(matches!(source.start(), Err(RuntimeError::ResourceAlreadyStarted(_))));
    source.stop();
    assert!(matches!(source.start(), Err(RuntimeError::ResourceStopped(_))));
}

#[test]
fn grpc_source_needs_its_configuration() {
    for (endpoint_id, expected) in [
        (77, "endpoint 77 referenced by input stream \"orders\" is not configured"),
        (4, "endpoint \"local\" does not reference a gRPC data connector"),
        (5, "data connector 9 referenced by endpoint \"Lost\" is not configured"),
    ] {
        let mut environment = environment(endpoint_id);
        let input = input(&mut environment, endpoint_id, false);
        assert_eq!(invalid_text(TonicDataSource::from_input(&input, &environment)), expected);
    }
}

fn http_endpoint(path: &str, http_method_type: HttpMethodType) -> HttpEndpointConfig {
    HttpEndpointConfig {
        id: 3,
        name: "Place".to_owned(),
        id_data_connector: 1,
        path: path.to_owned(),
        http_method_type,
    }
}

fn http_connector(address: &str) -> HttpDataConnectorConfig {
    HttpDataConnectorConfig {
        id: 1,
        name: "web".to_owned(),
        address: address.to_owned(),
        host: "0.0.0.0".to_owned(),
        port: 8080,
        use_dedicated_listener: true,
    }
}

#[test]
fn http_endpoint_answers_other_methods_itself() {
    let post = HttpMethodType::Post;
    let answer = EndpointConsumer::preliminary(post, "GET", Ok(vec![]));
    assert_eq!(answer.status(), Some(405));
    let answer = EndpointConsumer::preliminary(post, "POST", Err("too large".to_owned()));
    assert_eq!(answer.status(), Some(400));
    assert!(matches!(answer, Preliminary::BadRequest { reason } if reason == "too large"));
    let answer = EndpointConsumer::preliminary(post, "POST", Ok(vec![7]));
    assert_eq!(answer.status(), None);
    assert!(matches!(answer, Preliminary::Serve { body } if body == vec![7]));
    assert_eq!(EndpointConsumer::check_method(post, "PUT"), Err(Metric::InvalidHttpMethod));
}

#[test]
fn http_endpoints_serve_get_and_post() {
    for (method, routed) in [
        (HttpMethodType::Get, true),
        (HttpMethodType::Post, true),
        (HttpMethodType::Put, false),
        (HttpMethodType::Undefined, false),
    ] {
        let found = EndpointConsumer::router(&http_endpoint("/", method));
        assert_eq!(found, if routed { Some(method) } else { None });
    }
}

#[test]
fn handlers_build_the_response() {
    let mut headers: HeaderMap<HeaderValue> = HeaderMap::new();
    headers.insert("accept", HeaderValue::from_static("text/plain"));
    let mut data =
        HandlerData::new("POST".to_owned(), "/orders".to_owned(), headers, b"in".to_vec());
    assert!(data.set_header("X-Trace", b"1"));
    assert!(data.set_header("x-trace", b"2"));
    assert!(!data.set_header("bad name", b"1"));
    assert!(!data.set_header("x-other", b"a\nb"));
    data.set_status(404);
    data.set_status(201);
    data.set_response_body(b"draft".to_vec());
    data.set_response_body(b"out".to_vec());
    assert_eq!(data.headers.len(), 1);
    let response = data.into_response();
    assert_eq!((response.status, response.body), (201, b"out".to_vec()));
    assert_eq!(response.headers.len(), 1);
    let values: Vec<&HeaderValue> = response.headers.get_all("x-trace").iter().collect();
    assert_eq!(values, vec!["2"]);
    let untouched = HandlerData::new(String::new(), String::new(), HeaderMap::new(), vec![]);
    assert_eq!(untouched.into_response().status, 200);
}

#[test]
fn request_metadata_holds_text_headers() {
    let metadata = request_metadata(vec![
        ("a".to_owned(), Some("1".to_owned())),
        ("b".to_owned(), None),
        ("a".to_owned(), Some("2".to_owned())),
    ]);
    assert_eq!(metadata.entries(), &vec![("a".to_owned(), "2".to_owned())]);
}

#[test]
fn requests_carry_their_stream_id_and_trace_marker() {
    let metadata = |fields: &[(&str, &str)]| {
        let fields = fields.iter().map(|f| (f.0.to_owned(), Some(f.1.to_owned()))).collect();
        request_metadata(fields)
    };
    let context = request_context(&metadata(&[("x-stream-id", "s"), ("x-trace", "1")]), false);
    assert_eq!(context.stream_id().unwrap(), "s");
    assert!(context.sampling_enabled());
    let context = request_context(&metadata(&[("x-trace", "")]), false);
    assert!(context.stream_id().is_none());
    assert!(!context.sampling_enabled());
    assert!(request_context(&metadata(&[]), true).sampling_enabled());
}

#[test]
fn http_source_listens_on_its_address() {
    assert_eq!(AxumDataSource::new(http_connector("")).listen_address(), "0.0.0.0:8080");
    let mut source = AxumDataSource::new(http_connector("127.0.0.1:9"));
    assert_eq!((source.id(), source.name()), (1, "web"));
    assert_eq!(source.start().ok().unwrap().unwrap(), "127.0.0.1:9");
    assert!(matches!(source.start(), Err(RuntimeError::ResourceAlreadyStarted(_))));
    assert!(matches!(
        source.stop(Err("broken".to_owned())),
        Err(RuntimeError::Transport(text)) if text == "broken"
    ));
    assert!(source.start().is_err());
    assert!(source.stop(Ok(())).is_ok());
    assert!(source.start().is_ok());
    assert!(matches!(
        source.give_up_start("in use".to_owned()),
        RuntimeError::Transport(text) if text == "in use"
    ));
    let mut shared = http_connector("");
    shared.use_dedicated_listener = false;
    assert!(AxumDataSource::new(shared).start().ok().unwrap().is_none());
}

#[test]
fn http_source_takes_its_own_endpoints() {
    let mut environment = environment(3);
    let mut input = input(&mut environment, 3, false);
    let mut source = AxumDataSource::new(http_connector(""));
    let mut foreign = http_endpoint("/orders", HttpMethodType::Get);
    foreign.id_data_connector = 2;
    assert_eq!(
        invalid_text(source.add_endpoint(&mut input, &foreign, &mut environment, SetUp::ready())),
        "HTTP endpoint \"Place\" references connector 2, expected 1"
    );
    let pathless = http_endpoint("", HttpMethodType::Get);
    assert_eq!(
        invalid_text(source.add_endpoint(&mut input, &pathless, &mut environment, SetUp::ready())),
        "HTTP datasource endpoint path is empty"
    );
    let endpoint = http_endpoint("/orders", HttpMethodType::Get);
    assert!(source.add_endpoint(&mut input, &endpoint, &mut environment, SetUp::ready()).is_ok());
    assert!(source.start().is_ok());
    assert!(matches!(
        source.add_endpoint(&mut input, &endpoint, &mut environment, SetUp::ready()),
        Err(RuntimeError::ResourceAlreadyStarted(_))
    ));
}

fn kafka_endpoint(id: i32, topic: &str) -> KafkaEndpointConfig {
    KafkaEndpointConfig {
        id,
        name: format!("{topic}-{id}"),
        id_data_connector: 1,
        topic: topic.to_owned(),
        consumer_group: "group".to_owned(),
        enabled: true,
        create_topic: true,
        partitions: 3,
        replication_factor: 0,
    }
}

fn kafka_connector() -> KafkaDataConnectorConfig {
    KafkaDataConnectorConfig {
        id: 1,
        name: "broker".to_owned(),
        brokers: "localhost:9092".to_owned(),
        version: String::new(),
        dial_timeout: 250,
        security_protocol: KafkaSecurityProtocol::Plaintext,
        sasl_mechanism: KafkaSaslMechanism::Plain,
        username: String::new(),
        password: String::new(),
    }
}

#[test]
fn kafka_clients_are_configured() {
    let client = make_client_config(&kafka_connector());
    assert_eq!(client.get("bootstrap.servers"), Some("localhost:9092"));
    assert_eq!(client.get("socket.timeout.ms"), Some("250"));
    assert_eq!(client.get("group.id"), None);
    let client = endpoint_client(&kafka_connector(), &kafka_endpoint(3, "a")).unwrap();
    assert_eq!(client.get("group.id"), Some("group"));
    assert_eq!(client.get("auto.offset.reset"), Some("earliest"));
    assert_eq!(client.get("enable.auto.commit"), Some("true"));
    assert_eq!(client.get("enable.auto.offset.store"), Some("false"));
    let failure = |topic: &str, group: &str| {
        let mut endpoint = kafka_endpoint(3, topic);
        endpoint.consumer_group = group.to_owned();
        endpoint_client(&kafka_connector(), &endpoint).err().unwrap()
    };
    assert_eq!(failure(" ", "group"), "no topic specified for Kafka endpoint \" -3\"");
    assert_eq!(failure("a", "\t"), "consumer group is not set for Kafka endpoint \"a-3\"");
}

#[test]
fn kafka_messages_of_a_partition_share_a_lane() {
    let mut lanes = Lanes::new();
    let mut received = |topic: &str, partition: i32| {
        loop_step(&mut lanes, LoopEvent::Received { topic: topic.to_owned(), partition })
    };
    assert_eq!(received("a", 0), LoopAction::Dispatch { lane: 0, open: true });
    assert_eq!(received("a", 1), LoopAction::Dispatch { lane: 1, open: true });
    assert_eq!(received("b", 0), LoopAction::Dispatch { lane: 2, open: true });
    assert_eq!(received("a", 1), LoopAction::Dispatch { lane: 1, open: false });
    assert_eq!(loop_step(&mut lanes, LoopEvent::ReceiveFailed), LoopAction::Receive);
    assert_eq!(loop_step(&mut lanes, LoopEvent::Queued), LoopAction::Receive);
    assert_eq!(loop_step(&mut lanes, LoopEvent::LaneClosed), LoopAction::Finish);
    assert_eq!(loop_step(&mut lanes, LoopEvent::Stopped), LoopAction::Finish);
}

#[test]
fn kafka_offsets_point_behind_the_message() {
    let message = ConsumerMessage::new(Some(vec![1]), vec![2], "a".to_owned(), 4, 41);
    let mark = message.commit();
    assert_eq!((mark.topic.as_str(), mark.partition, mark.offset), ("a", 4, 42));
    assert_eq!(message.mark_message("note".to_owned()).offset, 42);
}

#[test]
fn kafka_source_rolls_a_failed_start_back() {
    let mut environment = environment(3);
    let mut input = input(&mut environment, 3, false);
    let (mut source, client) = RdkafkaKafkaDataSource::new(kafka_connector()).ok().unwrap();
    assert_eq!(client.get("bootstrap.servers"), Some("localhost:9092"));
    assert!(matches!(source.first_endpoint(), StartNext::Done));
    for (id, topic) in [(3, "a"), (4, "b"), (5, "a")] {
        assert!(source
            .add_endpoint(&mut input, kafka_endpoint(id, topic), &mut environment, SetUp::ready())
            .is_ok());
    }
    let topics = source.topics_to_create();
    let planned: Vec<(&str, i32, i32)> =
        topics.iter().map(|t| (t.topic.as_str(), t.partitions, t.replication)).collect();
    assert_eq!(planned, vec![("a", 3, 1), ("b", 3, 1)]);
    assert!(source.begin_start().is_ok());
    assert!(matches!(source.begin_start(), Err(RuntimeError::ResourceAlreadyStarted(_))));
    assert!(matches!(source.first_endpoint(), StartNext::Start(0)));
    assert!(matches!(source.endpoint_started(0, Ok(())), StartNext::Start(1)));
    assert!(matches!(source.endpoint_started(1, Ok(())), StartNext::Start(2)));
    match source.endpoint_started(2, Err(RuntimeError::Transport("down".to_owned()))) {
        StartNext::RollBack { stop, error } => {
            assert_eq!(stop, vec![1, 0]);
            assert!(matches!(error, RuntimeError::Transport(text) if text == "down"));
        }
        _ => panic!("expected a roll back"),
    }
    assert!(matches!(source.begin_start(), Err(RuntimeError::ResourceAlreadyStarted(_))));
    source.rolled_back();
    assert!(source.begin_start().is_ok());
    assert!(matches!(source.give_up_start("topic".to_owned()), RuntimeError::Transport(_)));
    assert!(source.begin_start().is_ok());
    assert!(matches!(source.endpoint_started(2, Ok(())), StartNext::Done));
    assert_eq!(source.stop(), Some(vec![2, 1, 0]));
    assert_eq!(source.stop(), None);
    assert!(matches!(source.begin_start(), Err(RuntimeError::ResourceStopped(_))));
}

#[test]
fn kafka_source_reports_the_first_error_of_a_stop() {
    assert!(RdkafkaKafkaDataSource::stopped(vec![Ok(()), Ok(())]).is_ok());
    let results = vec![
        Ok(()),
        Err(RuntimeError::Transport("first".to_owned())),
        Err(RuntimeError::Transport("second".to_owned())),
    ];
    assert!(matches!(
        RdkafkaKafkaDataSource::stopped(results),
        Err(RuntimeError::Transport(text)) if text == "first"
    ));
}

#[test]
fn kafka_source_refuses_endpoints() {
    let mut environment = environment(3);
    let mut input = input(&mut environment, 3, false);
    let mut brokerless = kafka_connector();
    brokerless.brokers = " ".to_owned();
    assert_eq!(
        RdkafkaKafkaDataSource::new(brokerless).err().unwrap(),
        "no brokers specified for Kafka data connector \"broker\""
    );
    let (mut source, _) = RdkafkaKafkaDataSource::new(kafka_connector()).ok().unwrap();
    let mut foreign = kafka_endpoint(3, "a");
    foreign.id_data_connector = 2;
    assert_eq!(
        invalid_text(source.add_endpoint(&mut input, foreign, &mut environment, SetUp::ready())),
        "Kafka endpoint \"a-3\" references connector 2, expected 1"
    );
    assert!(matches!(
        source.add_endpoint(&mut input, kafka_endpoint(3, ""), &mut environment, SetUp::ready()),
        Err(RuntimeError::Transport(text))
            if text == "no topic specified for Kafka endpoint \"-3\""
    ));
    assert!(source.add_endpoint(&mut input, kafka_endpoint(3, "a"), &mut environment, SetUp::ready()).is_ok());
    assert!(matches!(
        source.add_endpoint(&mut input, kafka_endpoint(3, "a"), &mut environment, SetUp::ready()),
        Err(RuntimeError::DuplicateResource(name)) if name == "a-3"
    ));
    assert!(source.begin_start().is_ok());
    assert!(matches!(
        source.add_endpoint(&mut input, kafka_endpoint(4, "b"), &mut environment, SetUp::ready()),
        Err(RuntimeError::ResourceAlreadyStarted(name)) if name == "broker"
    ));
}

#[test]
fn kafka_endpoint_loop_starts_once() {
    let name = "a-3".to_owned();
    let mut lifecycle = KafkaEndpointLifecycle::new();
    assert!(lifecycle.start(&name).is_ok());
    assert!(matches!(lifecycle.start(&name), Err(RuntimeError::ResourceAlreadyStarted(_))));
    assert!(lifecycle.stop());
    assert!(!lifecycle.stop());
    assert!(lifecycle.after_loop(true).is_ok());
    assert!(matches!(lifecycle.after_loop(false), Err(RuntimeError::ContextCancelled)));
    assert!(matches!(
        lifecycle.start(&name),
        Err(RuntimeError::ResourceStopped(text)) if text == "a-3"
    ));
}

#[test]
fn endpoints_that_are_not_set_up_are_not_made() {
    let lost = || Err(RuntimeError::Transport("lost".to_owned()));
    let without_instruments = || SetUp { instruments: lost(), registration: Ok(()) };
    let without_registration = || SetUp { instruments: Ok(()), registration: lost() };
    let mut environment = environment(3);
    let mut first = input(&mut environment, 3, true);
    assert!(matches!(
        make_grpc_no_streaming_endpoint_consumer(
            &mut first,
            "rpc",
            "Place",
            &mut environment,
            without_instruments(),
        ),
        Err(RuntimeError::Transport(text)) if text == "lost"
    ));
    assert!(first.consume_result(background(), Payload::new(1)).is_none());
    assert!(make_grpc_no_streaming_endpoint_consumer(
        &mut first,
        "rpc",
        "Place",
        &mut environment,
        without_registration(),
    )
    .is_err());
    assert!(first.consume_result(background(), Payload::new(1)).is_some());
    let mut second = input(&mut environment, 3, false);
    assert!(make_custom_endpoint_consumer(&mut second, &mut environment, without_registration())
        .is_err());
    assert!(second.consume_result(background(), Payload::new(1)).is_none());
    let (mut source, _) = RdkafkaKafkaDataSource::new(kafka_connector()).ok().unwrap();
    let refused = without_instruments();
    assert!(source
        .add_endpoint(&mut second, kafka_endpoint(3, "a"), &mut environment, refused)
        .is_err());
    assert!(source.endpoints.is_empty());
}

#[test]
fn kafka_endpoint_without_a_consumer_is_given_up() {
    let mut environment = environment(3);
    let mut input = input(&mut environment, 3, false);
    let (mut source, _) = RdkafkaKafkaDataSource::new(kafka_connector()).ok().unwrap();
    for id in [3, 4] {
        let endpoint = kafka_endpoint(id, "a");
        assert!(source
            .add_endpoint(&mut input, endpoint, &mut environment, SetUp::ready())
            .is_ok());
    }
    assert!(matches!(
        source.give_up_endpoint("no client".to_owned()),
        RuntimeError::Transport(text) if text == "no client"
    ));
    assert_eq!(source.endpoints.len(), 1);
}
