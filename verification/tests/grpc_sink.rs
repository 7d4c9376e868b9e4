use servicelib::datasink::grpc::{
    make_grpc_client_streaming_endpoint_consumer, make_grpc_no_streaming_endpoint_consumer,
    start_output_span, BidiStreamingEvent, BidiStreamingPhase,
    BidiStreamingSession, ClientStreamingEvent, ClientStreamingPhase, ClientStreamingSession,
    NoStreamingEndpointConsumer, NoStreamingEvent, NoStreamingPhase, NoStreamingRequest,
    EndpointMetrics, RequestSender, ResultContext, ServerStreamingEvent, ServerStreamingPhase,
    ServerStreamingRequest, Span, SpanEvent, TonicDataSink,
};
use servicelib::operators::SinkStreamWithResult;
use servicelib::runtime::common::{MessageContext, Payload};
use servicelib::runtime::config::{
    CallSemantics, GrpcDataConnectorConfig, GrpcEndpointConfig, RuntimeConfig,
    RuntimeDataConnectorConfig, RuntimeEndpointConfig, RuntimeStreamConfig, SinkStreamConfig,
    StreamConfig,
};
use servicelib::runtime::environment::RuntimeEnvironment;
use servicelib::runtime::error::{Fault, HandlerError, RuntimeError};
use servicelib::runtime::request::{Action, Metric};
use servicelib::runtime::stream::Stream;
use servicelib::runtime::telemetry::TracingLabels;

fn stream_config(id: i32, name: &str) -> StreamConfig {
    StreamConfig { id, name: name.to_owned(), id_service: 1 }
}

fn connector(connections_count: usize) -> GrpcDataConnectorConfig {
    GrpcDataConnectorConfig {
        id: 1,
        name: "inventory".to_owned(),
        address: "http://127.0.0.1:9202".to_owned(),
        connections_count,
    }
}

fn environment(tracing: bool, metrics: bool, connections_count: usize) -> RuntimeEnvironment {
    let config = RuntimeConfig {
        service_id: Some(1),
        default_semantics: CallSemantics::FunctionCall,
        streams: vec![RuntimeStreamConfig::Sink(SinkStreamConfig {
            stream: stream_config(7, "orders"),
            endpoint_id: 3,
        })],
        links: vec![],
        endpoints: vec![RuntimeEndpointConfig::Grpc(GrpcEndpointConfig {
            id: 3,
            name: "Reserve".to_owned(),
            id_data_connector: 1,
        })],
        data_connectors: vec![RuntimeDataConnectorConfig::Grpc(connector(connections_count))],
    };
    RuntimeEnvironment::new(config, tracing, metrics)
}

fn kinds<V, Q, S>(actions: &[Action<V, Q, S>]) -> Vec<&'static str> {
    actions
        .iter()
        .map(|action| match action {
            Action::BeginRequest { .. } => "begin",
            Action::ConsumeMessage { .. } => "consume",
            Action::Call { .. } => "call",
            Action::Receive => "receive",
            Action::CloseAndReceive => "close_and_receive",
            Action::CloseSend => "close_send",
            Action::Drain => "drain",
            Action::Defer { .. } => "defer",
            Action::HandleResponse { .. } => "handle",
            Action::EndRequest { .. } => "end",
            Action::NotifySink { .. } => "notify",
            Action::CloseBody => "close_body",
            Action::Eof { .. } => "eof",
            Action::AwaitResponse => "await_response",
            Action::AwaitDone => "await_done",
            Action::Forget => "forget",
            Action::Record(Metric::ActiveUp) => "+active",
            Action::Record(Metric::ActiveDown) => "-active",
            Action::Record(Metric::Duration) => "duration",
            Action::Record(Metric::MessagesTotal) => "messages",
            Action::Record(Metric::RequestError) => "error",
            Action::Record(Metric::BeginRequestFailed) => "begin_failed",
            Action::Record(Metric::CallStarted) => "call_started",
            Action::Record(Metric::CallSucceeded) => "call_ok",
            Action::Record(Metric::CallFailed) => "call_failed",
            Action::Record(Metric::CallUnknown) => "call_unknown",
            Action::Record(Metric::ClosingRejected) => "rejected",
            Action::Record(_) => "other",
        })
        .collect()
}

#[test]
fn disabled_result_span_does_not_emit_into_an_unrelated_parent() {
    let mut events = 0;
    let mut result = ResultContext::with_span(Span { disabled: true });
    assert!(result.span().is_none());
    if result.done().is_some() {
        events += 1;
    }
    assert!(result.is_done());
    assert_eq!(events, 0);
}

#[test]
fn enabled_result_span_keeps_completion_and_event() {
    let mut events = 0;
    let span = Span { disabled: false };
    assert!(!span.disabled);
    let mut result = ResultContext::with_span(span);
    assert!(result.span().is_some());
    if result.done() == Some(SpanEvent::DoneCalled) {
        events += 1;
    }
    assert!(result.is_done());
    assert_eq!(events, 1);
}

#[test]
fn rejects_zero_connections() {
    assert!(TonicDataSink::<u8>::validate_config(&connector(0)).is_err());
}

#[test]
fn refuses_an_address_that_is_no_uri() {
    let mut config = connector(1);
    config.address = "not an address".to_owned();
    match TonicDataSink::<u8>::validate_config(&config) {
        Err(RuntimeError::InvalidConfiguration(text)) => assert_eq!(text, "invalid URI"),
        _ => panic!("address is not an URI"),
    }
    assert!(TonicDataSink::<u8>::validate_config(&connector(2)).is_ok());
}

#[test]
fn output_span_needs_engine_and_sampling() {
    let labels = TracingLabels {
        stream: "orders".to_owned(),
        pipeline: "shop".to_owned(),
        component: "web".to_owned(),
    };
    for (tracing, sampled) in [(false, false), (false, true), (true, false), (true, true)] {
        let environment = environment(tracing, false, 1);
        let context = MessageContext::background().with_sampling(sampled);
        let (_, span) = start_output_span(context, &environment, &labels, "Reserve");
        assert_eq!(span.is_some(), tracing && sampled);
    }
    let environment = environment(true, false, 1);
    let context = MessageContext::background().with_sampling(true);
    let (_, span) = start_output_span(context, &environment, &labels, "Reserve");
    let span = span.unwrap();
    assert_eq!(span.name, "grpc.output");
    assert_eq!(span.endpoint, "Reserve");
    assert_eq!(span.stream, "orders");
    assert_eq!(span.pipeline.as_deref(), Some("shop"));
    assert_eq!(span.component.as_deref(), Some("web"));
}

#[test]
fn channels_take_turns_until_the_sink_stops() {
    let environment = environment(false, false, 3);
    let mut sink: TonicDataSink<char> = TonicDataSink::from_config(&connector(3)).ok().unwrap();
    assert!(matches!(sink.channel(), Err(RuntimeError::ResourceStopped(_))));
    let plan = sink.start(&environment).ok().unwrap();
    assert_eq!(plan.connections_count, 3);
    assert_eq!(plan.address, "http://127.0.0.1:9202");
    sink.use_channels(vec!['a', 'b', 'c']);
    let mut taken = String::new();
    for _ in 0..7 {
        taken.push(*sink.channel().ok().unwrap());
    }
    assert_eq!(taken, "abcabca");
    assert!(matches!(sink.start(&environment), Err(RuntimeError::ResourceAlreadyStarted(_))));
    let reload = sink.reload_address("http://127.0.0.1:1".to_owned(), &environment).ok().unwrap();
    assert_eq!(reload.unwrap().address, "http://127.0.0.1:1");
    sink.use_channels(vec!['x', 'y', 'z']);
    assert_eq!(*sink.channel().ok().unwrap(), 'x');
    sink.stop();
    assert!(matches!(sink.channel(), Err(RuntimeError::ResourceStopped(_))));
    assert!(matches!(sink.start(&environment), Err(RuntimeError::ResourceStopped(_))));
    sink.use_channels(vec!['u']);
    assert!(sink.channel().is_err());
    let idle = sink.reload_address("http://127.0.0.1:1".to_owned(), &environment).ok().unwrap();
    assert!(idle.is_none());
    assert!(sink.reload_address("::".to_owned(), &environment).is_err());
}

#[test]
fn grpc_sinks_measure_their_endpoint() {
    let mut environment = environment(false, true, 1);
    let mut sink = sink_of(&mut environment);
    let lost = Err(RuntimeError::Transport("lost".to_owned()));
    assert!(matches!(
        make_grpc_no_streaming_endpoint_consumer(&mut sink, &environment, lost),
        Err(RuntimeError::Transport(text)) if text == "lost"
    ));
    assert!(sink.consume(MessageContext::background(), Payload::new(1)).is_none());
    assert!(make_grpc_no_streaming_endpoint_consumer(&mut sink, &environment, Ok(())).is_ok());
    let (consumer, _, _) =
        sink.consume(MessageContext::background(), Payload::new(1)).unwrap();
    let labels: Vec<&str> = consumer.metrics.scope.labels.iter().map(|l| l.1.as_str()).collect();
    assert_eq!(consumer.metrics.scope.name, "datasink_endpoint");
    assert_eq!(labels, vec!["inventory", "Reserve", "grpc"]);
}

fn sink_of<C>(
    environment: &mut RuntimeEnvironment,
) -> SinkStreamWithResult<u32, u32, String, C> {
    let source: Stream<u32> = Stream::new(&stream_config(2, "source"), environment);
    let config = SinkStreamConfig { stream: stream_config(7, "orders"), endpoint_id: 3 };
    SinkStreamWithResult::make(&config, &source, environment).ok().unwrap()
}

#[test]
fn consumer_is_made_for_the_configured_endpoint() {
    let mut environment = environment(false, true, 1);
    let mut sink = sink_of(&mut environment);
    assert!(make_grpc_no_streaming_endpoint_consumer(&mut sink, &environment, Ok(())).is_ok());
    let (consumer, _, _) = sink.consume(MessageContext::background(), Payload::new(1)).unwrap();
    assert_eq!(consumer.metrics.rpc_method(), "Reserve");
    assert!(consumer.metrics.enabled);
    assert_eq!(consumer.metrics.scope.name, "datasink_endpoint");
    let labels: Vec<(&str, &str)> =
        consumer.metrics.scope.labels.iter().map(|(k, v)| (*k, v.as_str())).collect();
    assert_eq!(labels, vec![("connector", "inventory"), ("endpoint", "Reserve"), ("protocol", "grpc")]);
}

#[test]
fn missing_endpoint_is_reported_with_its_stream() {
    let config = RuntimeConfig {
        service_id: None,
        default_semantics: CallSemantics::FunctionCall,
        streams: vec![RuntimeStreamConfig::Sink(SinkStreamConfig {
            stream: stream_config(7, "orders"),
            endpoint_id: 3,
        })],
        links: vec![],
        endpoints: vec![],
        data_connectors: vec![],
    };
    let mut environment = RuntimeEnvironment::new(config, false, false);
    let mut sink: SinkStreamWithResult<u32, u32, String, NoStreamingEndpointConsumer> =
        sink_of(&mut environment);
    match make_grpc_no_streaming_endpoint_consumer(&mut sink, &environment, Ok(())) {
        Err(RuntimeError::InvalidConfiguration(text)) => assert_eq!(
            text,
            "endpoint 3 referenced by sink stream \"orders\" is not configured"
        ),
        _ => panic!("endpoint is not configured"),
    }
    assert!(sink.consume(MessageContext::background(), Payload::new(1)).is_none());
}

fn request(timed: bool) -> NoStreamingRequest<u32, &'static str> {
    NoStreamingRequest { timed, phase: NoStreamingPhase::Beginning { value: Payload::new(5) } }
}

#[test]
fn unary_request_runs_to_its_end() {
    let request = request(true);
    let (request, actions) = request
        .step::<&str, u8>(NoStreamingEvent::Begun(Ok(MessageContext::background())));
    assert_eq!(kinds(&actions), vec!["+active", "consume"]);
    let mut sender = RequestSender::new();
    assert!(sender.send::<&str>("first").is_ok());
    assert!(sender.send::<&str>("second").is_ok());
    let (request, actions) =
        request.step::<&str, u8>(NoStreamingEvent::Consumed { result: Ok(()), sender });
    assert_eq!(kinds(&actions), vec!["call_started", "call"]);
    assert!(matches!(&actions[1], Action::Call { request: "second", .. }));
    let (request, actions) = request.step::<&str, u8>(NoStreamingEvent::Called(Ok(9)));
    assert_eq!(kinds(&actions), vec!["call_ok", "handle"]);
    assert!(matches!(&actions[1], Action::HandleResponse { response: 9, .. }));
    let (request, actions) = request.step::<&str, u8>(NoStreamingEvent::Handled(Ok(())));
    assert_eq!(kinds(&actions), vec!["end", "-active", "duration", "messages"]);
    assert!(matches!(request.result(), Some(Ok(()))));
    let (_, actions) = request.step::<&str, u8>(NoStreamingEvent::Handled(Ok(())));
    assert!(actions.is_empty());
}

#[test]
fn unary_request_without_a_sent_request_fails() {
    let (request, _) =
        request(false).step::<&str, u8>(NoStreamingEvent::Begun(Ok(MessageContext::background())));
    let (request, actions) = request.step::<&str, u8>(NoStreamingEvent::Consumed {
        result: Ok(()),
        sender: RequestSender::new(),
    });
    assert_eq!(kinds(&actions), vec!["end", "-active", "error"]);
    match request.result() {
        Some(Err(HandlerError::Fault(fault))) => {
            assert_eq!(fault.text(), "gRPC sink handler did not send a request")
        }
        _ => panic!("no request was sent"),
    }
}

#[test]
fn unary_request_that_does_not_begin_is_only_counted() {
    let (request, actions) = request(true)
        .step::<&str, u8>(NoStreamingEvent::Begun(Err(HandlerError::Raised("no"))));
    assert_eq!(kinds(&actions), vec!["begin_failed"]);
    assert!(request.result().is_none());
}

#[test]
fn unary_request_keeps_the_first_error() {
    let (request, _) =
        request(false).step::<&str, u8>(NoStreamingEvent::Begun(Ok(MessageContext::background())));
    let mut sender = RequestSender::new();
    sender.send::<&str>("request").ok();
    let (request, _) = request.step::<&str, u8>(NoStreamingEvent::Consumed { result: Ok(()), sender });
    let (request, actions) =
        request.step::<&str, u8>(NoStreamingEvent::Called(Err(HandlerError::Raised("down"))));
    assert_eq!(kinds(&actions), vec!["call_failed", "end", "-active", "error"]);
    assert!(matches!(request.result(), Some(Err(HandlerError::Raised("down")))));
}

#[test]
fn server_stream_is_handled_one_response_at_a_time() {
    let request: ServerStreamingRequest<u32, &str> = ServerStreamingRequest {
        timed: false,
        phase: ServerStreamingPhase::Beginning { value: Payload::new(5) },
    };
    let (request, _) =
        request.step::<u8, u8>(ServerStreamingEvent::Begun(Ok(MessageContext::background())));
    let mut sender = RequestSender::new();
    sender.send::<&str>(1).ok();
    let (request, _) = request.step::<u8, u8>(ServerStreamingEvent::Consumed { result: Ok(()), sender });
    let (mut request, actions) = request.step::<u8, u8>(ServerStreamingEvent::Opened(Ok(())));
    assert_eq!(kinds(&actions), vec!["receive"]);
    for response in [10, 20] {
        let (next, actions) =
            request.step::<u8, u8>(ServerStreamingEvent::Received(Some(Ok(response))));
        assert_eq!(kinds(&actions), vec!["handle"]);
        let (next, actions) = next.step::<u8, u8>(ServerStreamingEvent::Handled(Ok(())));
        assert_eq!(kinds(&actions), vec!["receive"]);
        request = next;
    }
    let (request, actions) = request.step::<u8, u8>(ServerStreamingEvent::Received(None));
    assert_eq!(kinds(&actions), vec!["call_ok", "end", "-active", "messages"]);
    assert!(matches!(request.phase, ServerStreamingPhase::Finished { result: Some(Ok(())) }));
}

#[test]
fn server_stream_error_ends_with_unknown_status() {
    let request: ServerStreamingRequest<u32, &str> = ServerStreamingRequest {
        timed: false,
        phase: ServerStreamingPhase::Receiving { context: MessageContext::background() },
    };
    let (_, actions) = request.step::<u8, u8>(ServerStreamingEvent::Received(Some(Err(
        HandlerError::Raised("broken"),
    ))));
    assert_eq!(kinds(&actions), vec!["call_unknown", "end", "-active", "error"]);
}

fn client_session() -> ClientStreamingSession<u8, &'static str> {
    ClientStreamingSession { timed: true, phase: ClientStreamingPhase::Beginning }
}

fn opened_client_session() -> ClientStreamingSession<u8, &'static str> {
    let (session, actions) = client_session().step::<u32>(ClientStreamingEvent::Begun {
        result: Ok(MessageContext::background()),
        call_id: "call".to_owned(),
    });
    assert_eq!(kinds(&actions), vec!["+active", "call_started", "call"]);
    match &actions[2] {
        Action::Call { context, .. } => assert_eq!(context.stream_id().unwrap(), "call"),
        _ => panic!("call is made"),
    }
    let (session, actions) = session.step::<u32>(ClientStreamingEvent::Opened(Ok(())));
    assert!(actions.is_empty());
    session
}

#[test]
fn client_session_drains_before_it_handles_the_response() {
    let session = opened_client_session();
    let (session, actions) = session.step(ClientStreamingEvent::Arrived(Payload::new(1_u32)));
    assert_eq!(kinds(&actions), vec!["consume"]);
    let (session, actions) = session.step(ClientStreamingEvent::Arrived(Payload::new(2_u32)));
    assert_eq!(kinds(&actions), vec!["consume"]);
    let (session, actions) = session.step::<u32>(ClientStreamingEvent::Done);
    assert_eq!(kinds(&actions), vec!["close_and_receive"]);
    let (session, actions) = session.step(ClientStreamingEvent::Arrived(Payload::new(3_u32)));
    assert_eq!(kinds(&actions), vec!["rejected"]);
    let (session, actions) = session.step::<u32>(ClientStreamingEvent::Received(Ok(7)));
    assert!(actions.is_empty());
    let (session, actions) = session.step::<u32>(ClientStreamingEvent::Consumed(Ok(())));
    assert!(actions.is_empty());
    let (session, actions) = session.step::<u32>(ClientStreamingEvent::Consumed(Ok(())));
    assert_eq!(kinds(&actions), vec!["handle"]);
    let (session, actions) = session.step::<u32>(ClientStreamingEvent::Handled(Ok(())));
    assert_eq!(
        kinds(&actions),
        vec!["end", "-active", "duration", "messages", "call_ok", "forget"]
    );
    let (_, actions) = session.step(ClientStreamingEvent::Arrived(Payload::new(4_u32)));
    assert_eq!(kinds(&actions), vec!["rejected"]);
}

#[test]
fn client_session_defers_messages_until_the_call_is_open() {
    let (session, actions) = client_session().step(ClientStreamingEvent::Arrived(Payload::new(1_u32)));
    assert_eq!(kinds(&actions), vec!["defer"]);
    let (session, _) = session.step::<u32>(ClientStreamingEvent::Begun {
        result: Ok(MessageContext::background()),
        call_id: "call".to_owned(),
    });
    let (session, actions) =
        session.step::<u32>(ClientStreamingEvent::Opened(Err(HandlerError::Raised("down"))));
    assert_eq!(
        kinds(&actions),
        vec!["end", "-active", "duration", "error", "call_failed", "forget"]
    );
    let (_, actions) = session.step(ClientStreamingEvent::Arrived(Payload::new(1_u32)));
    assert!(actions.is_empty());
}

#[test]
fn cancelled_client_session_ends_with_its_fault() {
    let session = opened_client_session();
    let (session, _) = session.step(ClientStreamingEvent::Arrived(Payload::new(1_u32)));
    let (session, actions) = session.step::<u32>(ClientStreamingEvent::Cancelled);
    assert!(actions.is_empty());
    let (session, actions) = session.step::<u32>(ClientStreamingEvent::Consumed(Ok(())));
    assert_eq!(kinds(&actions)[0], "end");
    match session.phase {
        ClientStreamingPhase::Finished {
            result: Some(Err(HandlerError::Fault(Fault::GrpcClientStreamCancelled))),
            ..
        } => {}
        _ => panic!("session was cancelled"),
    }
    assert_eq!(
        Fault::GrpcClientStreamCancelled.text(),
        "gRPC client stream context cancelled"
    );
}

#[test]
fn failed_message_closes_the_client_session() {
    let session = opened_client_session();
    let (session, _) = session.step(ClientStreamingEvent::Arrived(Payload::new(1_u32)));
    let (_, actions) =
        session.step::<u32>(ClientStreamingEvent::Consumed(Err(HandlerError::Raised("bad"))));
    assert_eq!(kinds(&actions), vec!["close_and_receive"]);
}

#[test]
fn messages_of_one_stream_share_a_session() {
    let mut environment = environment(false, true, 1);
    let mut sink = sink_of(&mut environment);
    assert!(make_grpc_client_streaming_endpoint_consumer(&mut sink, &mut environment, Ok(()))
        .is_ok());
    let mut consumer = servicelib::datasink::grpc::ClientStreamingEndpointConsumer {
        metrics: EndpointMetrics::new(&sink, &environment, Ok(())).ok().unwrap(),
        pending: servicelib::runtime::store::PendingTable::new(),
    };
    let context = MessageContext::background().with_stream_id("s".to_owned());
    let (first, opened) = consumer.consume::<u32, u8, &str>(context.clone(), "x".to_owned());
    assert!(first.created);
    assert!(opened.is_some());
    let (second, opened) = consumer.consume::<u32, u8, &str>(context, "y".to_owned());
    assert!(!second.created);
    assert!(opened.is_none());
    assert_eq!(first.token, second.token);
    let (third, _) =
        consumer.consume::<u32, u8, &str>(MessageContext::background(), "z".to_owned());
    assert_eq!(third.stream_id, "z");
    assert_eq!(third.context.stream_id().unwrap(), "z");
    assert!(!consumer.forget("s", third.token));
    assert!(consumer.forget("s", first.token));
    assert!(!consumer.forget("s", first.token));
}

fn opened_bidi_session() -> BidiStreamingSession<&'static str> {
    let session: BidiStreamingSession<&str> =
        BidiStreamingSession { timed: false, phase: BidiStreamingPhase::Beginning };
    let (session, _) = session.step::<u32, u8>(BidiStreamingEvent::Begun {
        result: Ok(MessageContext::background()),
        call_id: "call".to_owned(),
    });
    let (session, actions) = session.step::<u32, u8>(BidiStreamingEvent::Opened(Ok(())));
    assert_eq!(kinds(&actions), vec!["receive"]);
    session
}

#[test]
fn bidi_session_tells_the_peer_once() {
    let session = opened_bidi_session();
    let (session, actions) = session.step::<u32, u8>(BidiStreamingEvent::Done);
    assert_eq!(kinds(&actions), vec!["close_send"]);
    let (session, actions) = session.step::<u32, u8>(BidiStreamingEvent::Cancelled);
    assert!(actions.is_empty());
    let (session, actions) =
        session.step::<u32, u8>(BidiStreamingEvent::Arrived(Payload::new(1)));
    assert_eq!(kinds(&actions), vec!["consume"]);
    let (session, actions) = session.step::<u32, u8>(BidiStreamingEvent::Received(Ok(None)));
    assert!(actions.is_empty());
    let (session, actions) =
        session.step::<u32, u8>(BidiStreamingEvent::Arrived(Payload::new(2)));
    assert_eq!(kinds(&actions), vec!["rejected"]);
    let (_, actions) = session.step::<u32, u8>(BidiStreamingEvent::Consumed(Ok(())));
    assert_eq!(kinds(&actions), vec!["end", "-active", "messages", "forget"]);
}

#[test]
fn bidi_peer_that_ends_is_told_last() {
    let session = opened_bidi_session();
    let (session, actions) = session.step::<u32, u8>(BidiStreamingEvent::Received(Ok(Some(4))));
    assert_eq!(kinds(&actions), vec!["handle"]);
    let (_, actions) =
        session.step::<u32, u8>(BidiStreamingEvent::Handled(Err(HandlerError::Raised("bad"))));
    assert_eq!(kinds(&actions), vec!["end", "-active", "error", "forget", "close_send"]);
}
