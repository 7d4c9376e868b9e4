use servicelib::datasink::direct::{DirectEvent, DirectPhase};
use servicelib::datasink::http::body::CLOSED_TEXT;
use servicelib::datasink::http::{
    make_endpoint_consumer, HttpEvent, HttpPhase, HttpRequest, ReadOutcome, ReadStep, ReqwestClient,
    Request, Requester, Response, ResponseBody,
};
use servicelib::datasink::localsink::make_custom_endpoint_consumer;
use servicelib::runtime::common::{MessageContext, Payload};
use servicelib::runtime::config::{
    CallSemantics, HttpDataConnectorConfig, HttpEndpointConfig, HttpMethodType, RuntimeConfig,
    RuntimeStreamConfig, SinkStreamConfig, StreamConfig,
};
use servicelib::runtime::environment::RuntimeEnvironment;
use servicelib::runtime::error::{Fault, HandlerError, RuntimeError};
use servicelib::runtime::request::Action;
use servicelib::runtime::stream::Stream;
use servicelib::runtime::string_map::StringMap;

fn stream_config(id: i32, name: &str) -> StreamConfig {
    StreamConfig { id, name: name.to_owned(), id_service: 1 }
}

fn sink_config(endpoint_id: i32) -> SinkStreamConfig {
    SinkStreamConfig { stream: stream_config(7, "orders"), endpoint_id }
}

fn environment(endpoint_id: i32, metrics: bool) -> RuntimeEnvironment {
    let config = RuntimeConfig {
        service_id: Some(1),
        default_semantics: CallSemantics::FunctionCall,
        streams: vec![RuntimeStreamConfig::Sink(sink_config(endpoint_id))],
        links: vec![],
        endpoints: vec![],
        data_connectors: vec![],
    };
    RuntimeEnvironment::new(config, false, metrics)
}

fn endpoint(path: &str, http_method_type: HttpMethodType) -> HttpEndpointConfig {
    HttpEndpointConfig {
        id: 3,
        name: "Reserve".to_owned(),
        id_data_connector: 1,
        path: path.to_owned(),
        http_method_type,
    }
}

fn connector(address: &str) -> HttpDataConnectorConfig {
    HttpDataConnectorConfig {
        id: 1,
        name: "inventory".to_owned(),
        address: address.to_owned(),
        host: String::new(),
        port: 0,
        use_dedicated_listener: false,
    }
}

fn kinds<V, Q, S>(actions: &[Action<V, Q, S>]) -> Vec<String> {
    actions
        .iter()
        .map(|action| match action {
            Action::BeginRequest { .. } => "begin".to_owned(),
            Action::ConsumeMessage { .. } => "consume".to_owned(),
            Action::Call { .. } => "call".to_owned(),
            Action::HandleResponse { .. } => "handle".to_owned(),
            Action::EndRequest { .. } => "end".to_owned(),
            Action::CloseBody => "close".to_owned(),
            Action::NotifySink { .. } => "notify".to_owned(),
            Action::Record(metric) => format!("{metric:?}"),
            _ => "other".to_owned(),
        })
        .collect()
}

fn request(method: &str, timeout: Option<u128>) -> Request {
    let mut requester = Requester::new();
    requester
        .new_request(method.to_owned(), "http://host/".to_owned(), b"body".to_vec())
        .timeout = timeout;
    match requester.take_request::<()>() {
        Ok(request) => request,
        Err(_) => panic!("a request was created"),
    }
}

#[test]
fn requester_keeps_the_last_request() {
    let mut requester = Requester::default();
    requester.new_request("GET".to_owned(), "first".to_owned(), vec![]);
    let request = requester.new_request("PUT".to_owned(), "second".to_owned(), vec![1]);
    request.headers.insert("accept".to_owned(), "text/plain".to_owned());
    let taken = requester.take_request::<()>().ok().unwrap();
    assert_eq!((taken.method.as_str(), taken.url.as_str()), ("PUT", "second"));
    assert_eq!(taken.headers.get("accept").unwrap(), "text/plain");
    assert!(matches!(
        requester.take_request::<()>(),
        Err(HandlerError::Fault(Fault::HttpRequestNotCreated))
    ));
}

#[test]
fn method_names_are_tokens() {
    let client = ReqwestClient::new();
    let context = MessageContext::background();
    for method in ["GET", "get", "M-SEARCH", "X!", "aVeryLongExtensionMethodName"] {
        assert!(client.prepare::<()>(&context, request(method, None)).is_ok());
    }
    for method in ["", "GE T", "G\u{c9}T", "GET\n", "A(B"] {
        assert!(matches!(
            client.prepare::<()>(&context, request(method, None)),
            Err(HandlerError::Fault(Fault::HttpInvalidMethod))
        ));
    }
}

#[test]
fn timeout_lies_within_the_deadline() {
    let client = ReqwestClient::new();
    let timeout = |own: Option<u128>, left: Option<u128>| {
        let context = MessageContext::background().with_remaining(left);
        client.prepare::<()>(&context, request("GET", own)).ok().unwrap().timeout
    };
    assert_eq!(timeout(None, None), None);
    assert_eq!(timeout(Some(5), None), Some(5));
    assert_eq!(timeout(Some(u128::MAX), None), Some(u128::MAX));
    assert_eq!(timeout(None, Some(7)), Some(7));
    assert_eq!(timeout(Some(5), Some(7)), Some(5));
    assert_eq!(timeout(Some(9), Some(7)), Some(7));
}

#[test]
fn cancelled_calls_fail() {
    let client = ReqwestClient::new();
    assert!(matches!(
        client.outcome::<()>(None),
        Err(HandlerError::Fault(Fault::HttpRequestCancelled))
    ));
    let answered = client.outcome::<()>(Some(Ok(Response::new(204, vec![], None))));
    assert_eq!(answered.ok().unwrap().status, 204);
}

#[test]
fn response_keeps_text_headers() {
    let response = Response::new(
        404,
        vec![
            ("a".to_owned(), Some("1".to_owned())),
            ("b".to_owned(), None),
            ("a".to_owned(), Some("2".to_owned())),
        ],
        Some(12),
    );
    assert!(response.is_error());
    assert!(!Response::new(399, vec![], None).is_error());
    assert_eq!(response.headers.get("a").unwrap(), "2");
    assert!(response.headers.get("b").is_none());
    assert_eq!(response.body.content_length(), Some(12));
}

#[test]
fn closed_body_is_not_read() {
    let mut body = ResponseBody::new(None);
    assert_eq!(body.begin_read(8), ReadStep::ReadSource);
    assert!(!body.end_read(ReadOutcome::Pending));
    let close = body.close();
    assert!(close.drop_reader && close.wake);
    assert_eq!(body.begin_read(8), ReadStep::Closed);
    assert_eq!(body.begin_read(0), ReadStep::Ready);
    let again = body.close();
    assert!(!again.drop_reader && !again.wake);
    assert_eq!(CLOSED_TEXT, "HTTP response body is closed");
}

#[test]
fn body_ends_with_an_empty_read_or_an_error() {
    let mut body = ResponseBody::new(Some(3));
    assert!(!body.end_read(ReadOutcome::Bytes(3)));
    assert_eq!(body.begin_read(8), ReadStep::ReadSource);
    assert!(body.end_read(ReadOutcome::Bytes(0)));
    assert_eq!(body.begin_read(8), ReadStep::Ready);
    let mut body = ResponseBody::new(None);
    assert!(body.end_read(ReadOutcome::Failed));
    assert_eq!(body.begin_read(8), ReadStep::Ready);
}

#[test]
fn metric_url_has_one_slash() {
    for (address, path, expected) in [
        ("http://host//", "/items", "http://host/items"),
        ("http://host", "items", "http://host/items"),
        ("http://host/", "", "http://host/"),
    ] {
        let mut environment = environment(3, true);
        let source: Stream<u32> = Stream::new(&stream_config(1, "source"), &mut environment);
        let mut sink =
            source.sink_with_result::<u64, String, _>(&sink_config(3), &mut environment)
                .ok()
                .unwrap();
        assert!(make_endpoint_consumer(
            &mut sink,
            endpoint(path, HttpMethodType::Post),
            connector(address),
            &environment,
            Ok(())
        )
        .is_ok());
        let payload = Payload::new(1);
        let (consumer, _, _) = sink.consume(MessageContext::background(), payload).unwrap();
        assert_eq!(consumer.metric_url, expected);
        assert_eq!(consumer.method, "POST");
        assert_eq!(consumer.endpoint_name, "Reserve");
        assert_eq!(consumer.scope.name, "datasink_endpoint");
        let emission = consumer.stream_context.collect(MessageContext::background(), 5);
        assert_eq!((emission.stream.id(), *emission.payload.get()), (7, 5));
        let emission =
            consumer.stream_context.error_collect(MessageContext::background(), "e".to_owned());
        assert_eq!(emission.stream.id(), -7);
    }
}

fn begun(timed: bool) -> HttpRequest<u32, &'static str> {
    let request: HttpRequest<u32, &str> = HttpRequest {
        timed,
        observed: timed,
        phase: HttpPhase::Beginning { value: Payload::new(4) },
    };
    let (request, actions) = request.step(HttpEvent::Begun {
        begun: Ok(MessageContext::background().with_stream_id("own".to_owned())),
        call_id: "call".to_owned(),
    });
    let expected = if timed { vec!["ActiveUp", "consume"] } else { vec!["consume"] };
    assert_eq!(kinds(&actions), expected);
    request
}

fn created() -> Requester {
    let mut requester = Requester::new();
    let request = requester.new_request("GET".to_owned(), "http://host/".to_owned(), vec![]);
    request.headers.insert("accept".to_owned(), "text/plain".to_owned());
    request.headers.insert("x-stream-id".to_owned(), "stale".to_owned());
    requester
}

fn metadata() -> StringMap<String> {
    let mut metadata = StringMap::new();
    metadata.insert("x-stream-id".to_owned(), "call".to_owned());
    metadata.insert("traceparent".to_owned(), "00-1-2-01".to_owned());
    metadata
}

#[test]
fn http_request_runs_through() {
    let (request, actions) =
        begun(true).step(HttpEvent::Consumed { result: Ok(()), requester: created(), metadata: metadata() });
    assert_eq!(kinds(&actions), vec!["CallStarted", "call"]);
    match &actions[1] {
        Action::Call { context, request } => {
            assert_eq!(context.stream_id().unwrap(), "call");
            assert_eq!(request.headers.len(), 3);
            assert_eq!(request.headers.get("accept").unwrap(), "text/plain");
            assert_eq!(request.headers.get("x-stream-id").unwrap(), "call");
            assert_eq!(request.headers.get("traceparent").unwrap(), "00-1-2-01");
        }
        _ => panic!("expected the call"),
    }
    let (request, actions) =
        request.step(HttpEvent::Called(Ok(Response::new(200, vec![], None))));
    assert_eq!(kinds(&actions), vec!["CallSucceeded", "handle"]);
    assert!(matches!(
        &actions[1],
        Action::HandleResponse { context, .. } if context.stream_id().unwrap() == "own"
    ));
    let (request, actions) = request.step(HttpEvent::Handled(Ok(())));
    assert_eq!(
        kinds(&actions),
        vec!["end", "ActiveDown", "Duration", "MessagesTotal", "close"]
    );
    assert!(matches!(request.result(), Some(Ok(()))));
    let (_, actions) = request.step(HttpEvent::Handled(Ok(())));
    assert!(actions.is_empty());
}

#[test]
fn http_request_without_metrics_records_none() {
    let (request, actions) =
        begun(false).step(HttpEvent::Consumed { result: Ok(()), requester: created(), metadata: metadata() });
    assert_eq!(kinds(&actions), vec!["call"]);
    let (request, actions) = request.step(HttpEvent::Called(Err(HandlerError::Raised("down"))));
    assert_eq!(kinds(&actions), vec!["end"]);
    assert!(matches!(request.result(), Some(Err(HandlerError::Raised("down")))));
}

#[test]
fn http_handler_that_creates_no_request_fails() {
    let (request, actions) =
        begun(true).step(HttpEvent::Consumed { result: Ok(()), requester: Requester::new(), metadata: metadata() });
    assert_eq!(kinds(&actions), vec!["end", "ActiveDown", "Duration", "RequestError"]);
    assert!(matches!(
        request.result(),
        Some(Err(HandlerError::Fault(Fault::HttpRequestNotCreated)))
    ));
    let (request, _) = begun(true).step(HttpEvent::Consumed {
        result: Err(HandlerError::Raised("bad")),
        requester: created(),
        metadata: metadata(),
    });
    assert!(matches!(request.result(), Some(Err(HandlerError::Raised("bad")))));
}

#[test]
fn http_request_that_fails_to_begin_has_no_end() {
    let request: HttpRequest<u32, &str> = HttpRequest {
        timed: true,
        observed: true,
        phase: HttpPhase::Beginning { value: Payload::new(4) },
    };
    let (request, actions) = request.step(HttpEvent::Begun {
        begun: Err(HandlerError::Raised("no")),
        call_id: "call".to_owned(),
    });
    assert_eq!(kinds(&actions), vec!["BeginRequestFailed"]);
    assert!(request.result().is_none());
}

#[test]
fn local_sink_notifies_its_callback() {
    let mut environment = environment(3, true);
    let source: Stream<u32> = Stream::new(&stream_config(1, "source"), &mut environment);
    let mut sink = source.sink::<String, _>(&sink_config(3), &mut environment).ok().unwrap();
    assert!(make_custom_endpoint_consumer::<u32, String, &str>(
        &mut sink,
        &environment,
        Ok(())
    )
    .is_ok());
    let context = MessageContext::background();
    let (consumer, context, payload) = sink.consume(context, Payload::new(6)).unwrap();
    assert!(consumer.sink_callback().is_none());
    let labels: Vec<&str> = consumer.scope.labels.iter().map(|l| l.1.as_str()).collect();
    assert_eq!(labels, vec!["custom", "orders", "local"]);
    assert_eq!(consumer.result_stream.id(), -7);
    let (request, actions) = consumer.consume::<u32, &str>(context, "fresh".to_owned(), payload);
    assert_eq!(kinds(&actions)[0], "begin");
    assert!(matches!(
        &actions[0],
        Action::BeginRequest { context } if context.stream_id().unwrap() == "fresh"
    ));
    let (request, actions) = request.step(DirectEvent::Begun(MessageContext::background()));
    assert!(kinds(&actions).contains(&"consume".to_owned()));
    let (request, actions) = request.step(DirectEvent::Consumed(Ok(())));
    assert_eq!(kinds(&actions), vec!["end"]);
    assert!(matches!(request.result(), Some(Ok(()))));
    let (request, actions) = request.step(DirectEvent::Ended { notify: true });
    assert_eq!(kinds(&actions), vec!["notify", "ActiveDown", "Duration", "MessagesTotal"]);
    assert!(matches!(request.phase, DirectPhase::Finished { result: Ok(()) }));
}

#[test]
fn sinks_without_instruments_get_no_consumer() {
    let mut environment = environment(3, true);
    let source: Stream<u32> = Stream::new(&stream_config(1, "source"), &mut environment);
    let mut sink = source.sink::<String, _>(&sink_config(3), &mut environment).ok().unwrap();
    let lost = || Err(RuntimeError::Transport("lost".to_owned()));
    assert!(matches!(
        make_custom_endpoint_consumer::<u32, String, &str>(&mut sink, &environment, lost()),
        Err(RuntimeError::Transport(text)) if text == "lost"
    ));
    assert!(sink.consume(MessageContext::background(), Payload::new(6)).is_none());
    let second: Stream<u32> = Stream::new(&stream_config(2, "second"), &mut environment);
    let mut sink = second
        .sink_with_result::<u64, String, _>(&sink_config(3), &mut environment)
        .ok()
        .unwrap();
    let endpoint = endpoint("/items", HttpMethodType::Post);
    assert!(matches!(
        make_endpoint_consumer(&mut sink, endpoint, connector("http://host"), &environment, lost()),
        Err(RuntimeError::Transport(text)) if text == "lost"
    ));
    assert!(sink.consume(MessageContext::background(), Payload::new(6)).is_none());
}
