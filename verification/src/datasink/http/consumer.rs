//! The requests of an HTTP sink.
use vstd::prelude::*;
use vstd::string::*;

use crate::datasink::http::message::{Request, RequestView, Requester, Response};
use crate::operators::sink::SinkStreamWithResult;
use crate::runtime::common::{
    law_only_the_stream_id_changes, Emission, MessageContext, Payload,
};
use crate::runtime::config::{
    method_text, HttpDataConnectorConfig, HttpEndpointConfig,
};
use crate::runtime::datasink::SinkStreamContext;
use crate::runtime::environment::RuntimeEnvironment;
use crate::runtime::error::{Fault, HandlerError, HandlerResult, RuntimeResult};
use crate::runtime::lookup::Side;
use crate::runtime::metrics::{endpoint_scope, is_endpoint_scope, MetricScope};
use crate::runtime::request::{
    follows, follows_empty, follows_push, group_tally, group_under, lemma_follows_add, one,
    push_request_end, request_end, succeeded, tally, under, Action, Kind, Metric,
};
use crate::runtime::string_map::StringMap;
use crate::runtime::text::{law_trailing_characters_go, trim_trailing, without_trailing};

verus! {

pub const IMPLEMENTATION: &'static str = "rust/axum";

/// Writes what a handler hands back.
pub struct StreamContext<R, E> {
    base: SinkStreamContext<R, E>,
}

impl<R, E> Clone for StreamContext<R, E> {
    fn clone(&self) -> (copy: StreamContext<R, E>)
        ensures
            copy == *self,
    {
        StreamContext { base: self.base.clone() }
    }
}

impl<R, E> StreamContext<R, E> {
    pub closed spec fn spec_base(&self) -> SinkStreamContext<R, E> {
        self.base
    }

    /// Writes a result to the sink's result stream.
    pub fn collect(&self, context: MessageContext, value: R) -> (emission: Emission<R>)
        ensures
            emission.stream == self.spec_base().spec_result_stream(),
            emission.context == context,
            emission.payload@ == value,
    {
        self.base.collect(context, value)
    }

    /// Writes an error to the sink's error stream.
    pub fn error_collect(&self, context: MessageContext, value: E) -> (emission: Emission<E>)
        ensures
            emission.stream == self.spec_base().spec_error_stream(),
            emission.context == context,
            emission.payload@ == value,
    {
        self.base.error_collect(context, value)
    }
}

/// How far a request has come.
pub enum HttpPhase<T, X> {
    /// `begin_request` is running.
    Beginning { value: Payload<T> },
    /// `consume_message` is running. The call will go out under `call_context`.
    Consuming { context: MessageContext, call_context: MessageContext },
    /// The call is under way.
    Calling { context: MessageContext },
    /// `handle_response` is running.
    Handling { context: MessageContext },
    /// Over. There is no result where `begin_request` failed.
    Finished { result: Option<HandlerResult<(), X>> },
}

/// What the driver reports.
pub enum HttpEvent<X> {
    /// `begin_request` returned the context to go on with. The call goes out under
    /// the fresh stream id `call_id`.
    Begun { begun: HandlerResult<MessageContext, X>, call_id: String },
    /// `consume_message` returned; `requester` holds the request that it created, and
    /// `metadata` is what the context of the call is sent with.
    Consumed { result: HandlerResult<(), X>, requester: Requester, metadata: StringMap<String> },
    /// The call came back.
    Called(HandlerResult<Response, X>),
    /// `handle_response` returned.
    Handled(HandlerResult<(), X>),
}

impl<X> HttpEvent<X> {
    /// Whether the headers and the metadata that an event carries are well-formed.
    pub open spec fn wf(&self) -> bool {
        match self {
            HttpEvent::Consumed { requester, metadata, .. } => {
                &&& metadata.wf()
                &&& requester.spec_request() matches Some(request) ==> request.wf()
            },
            _ => true,
        }
    }
}

/// One request of an HTTP sink. `timed` tells whether the endpoint's metrics are
/// recorded, `observed` whether those of the client are.
pub struct HttpRequest<T, X> {
    pub timed: bool,
    pub observed: bool,
    pub phase: HttpPhase<T, X>,
}

/// A metric update, where metrics are recorded.
pub open spec fn when<T, Req>(recorded: bool, metric: Metric) -> Seq<
    Action<Payload<T>, Req, Response>,
> {
    if recorded {
        one(Action::Record(metric))
    } else {
        Seq::empty()
    }
}

/// The end of a request: `end_request` runs, the metrics are updated where they are
/// recorded, and last the body of the response is closed where there is one.
pub open spec fn http_end<T, Req>(
    timed: bool,
    context: MessageContext,
    ok: bool,
    body: bool,
) -> Seq<Action<Payload<T>, Req, Response>> {
    one(Action::EndRequest { context }) + (if timed {
        request_end(true, ok)
    } else {
        Seq::empty()
    }) + (if body {
        one(Action::CloseBody)
    } else {
        Seq::empty()
    })
}

/// An action with its request as characters and bytes.
pub open spec fn action_view<T>(action: Action<Payload<T>, Request, Response>) -> Action<
    Payload<T>,
    RequestView,
    Response,
> {
    match action {
        Action::BeginRequest { context } => Action::BeginRequest { context },
        Action::ConsumeMessage { context, value } => Action::ConsumeMessage { context, value },
        Action::Call { context, request } => Action::Call { context, request: request@ },
        Action::Receive => Action::Receive,
        Action::CloseAndReceive => Action::CloseAndReceive,
        Action::CloseSend => Action::CloseSend,
        Action::Drain => Action::Drain,
        Action::Defer { value } => Action::Defer { value },
        Action::HandleResponse { context, response } => Action::HandleResponse {
            context,
            response,
        },
        Action::EndRequest { context } => Action::EndRequest { context },
        Action::NotifySink { context, value } => Action::NotifySink { context, value },
        Action::CloseBody => Action::CloseBody,
        Action::Eof { context } => Action::Eof { context },
        Action::AwaitResponse => Action::AwaitResponse,
        Action::AwaitDone => Action::AwaitDone,
        Action::Forget => Action::Forget,
        Action::Record(metric) => Action::Record(metric),
    }
}

/// Actions with their requests as characters and bytes.
pub open spec fn action_views<T>(actions: Seq<Action<Payload<T>, Request, Response>>) -> Seq<
    Action<Payload<T>, RequestView, Response>,
> {
    Seq::new(actions.len(), |i: int| action_view(actions[i]))
}

proof fn lemma_views_add<T>(
    left: Seq<Action<Payload<T>, Request, Response>>,
    right: Seq<Action<Payload<T>, Request, Response>>,
)
    ensures
        action_views(left + right) == action_views(left) + action_views(right),
{
    assert(action_views(left + right) =~= action_views(left) + action_views(right));
}

proof fn lemma_views_end<T>(timed: bool, context: MessageContext, ok: bool, body: bool)
    ensures
        action_views(http_end::<T, Request>(timed, context, ok, body)) == http_end::<
            T,
            RequestView,
        >(timed, context, ok, body),
{
    reveal(request_end);
    assert(action_views(http_end::<T, Request>(timed, context, ok, body)) =~= http_end::<
        T,
        RequestView,
    >(timed, context, ok, body));
}

impl<T, X> HttpRequest<T, X> {
    pub open spec fn at(self, phase: HttpPhase<T, X>) -> HttpRequest<T, X> {
        HttpRequest { timed: self.timed, observed: self.observed, phase }
    }

    /// What an event leads to. An event that the phase does not wait for changes
    /// nothing.
    pub open spec fn next(self, event: HttpEvent<X>) -> (
        HttpRequest<T, X>,
        Seq<Action<Payload<T>, RequestView, Response>>,
    ) {
        match (self.phase, event) {
            (HttpPhase::Beginning { value }, HttpEvent::Begun { begun: Ok(context), call_id }) => (
                self.at(
                    HttpPhase::Consuming {
                        context,
                        call_context: context.spec_with_stream_id(call_id),
                    },
                ),
                when(self.timed, Metric::ActiveUp) + one(
                    Action::ConsumeMessage { context, value },
                ),
            ),
            (HttpPhase::Beginning { .. }, HttpEvent::Begun { begun: Err(_), .. }) => (
                self.at(HttpPhase::Finished { result: None }),
                when(self.timed, Metric::BeginRequestFailed),
            ),
            (
                HttpPhase::Consuming { context, call_context },
                HttpEvent::Consumed { result: Ok(_), requester, metadata },
            ) => match requester.spec_request() {
                Some(request) => (
                    self.at(HttpPhase::Calling { context }),
                    when(self.observed, Metric::CallStarted) + one(
                        Action::Call {
                            context: call_context,
                            request: request@.with_metadata(metadata@),
                        },
                    ),
                ),
                None => (
                    self.at(
                        HttpPhase::Finished {
                            result: Some(Err(HandlerError::Fault(Fault::HttpRequestNotCreated))),
                        },
                    ),
                    http_end(self.timed, context, false, false),
                ),
            },
            (
                HttpPhase::Consuming { context, .. },
                HttpEvent::Consumed { result: Err(error), .. },
            ) => (
                self.at(HttpPhase::Finished { result: Some(Err(error)) }),
                http_end(self.timed, context, false, false),
            ),
            (HttpPhase::Calling { context }, HttpEvent::Called(Ok(response))) => (
                self.at(HttpPhase::Handling { context }),
                when(self.observed, Metric::CallSucceeded) + one(
                    Action::HandleResponse { context, response },
                ),
            ),
            (HttpPhase::Calling { context }, HttpEvent::Called(Err(error))) => (
                self.at(HttpPhase::Finished { result: Some(Err(error)) }),
                when(self.observed, Metric::CallFailed) + http_end(
                    self.timed,
                    context,
                    false,
                    false,
                ),
            ),
            (HttpPhase::Handling { context }, HttpEvent::Handled(result)) => (
                self.at(HttpPhase::Finished { result: Some(result) }),
                http_end(self.timed, context, result is Ok, true),
            ),
            _ => (self, Seq::empty()),
        }
    }

    fn push_when(recorded: bool, metric: Metric, actions: &mut Vec<Action<Payload<T>, Request, Response>>)
        ensures
            action_views(final(actions)@) == action_views(old(actions)@) + when(recorded, metric),
    {
        if recorded {
            actions.push(Action::Record(metric));
        }
        assert(action_views(actions@) =~= action_views(old(actions)@) + when(recorded, metric));
    }

    fn push_end(
        timed: bool,
        context: MessageContext,
        ok: bool,
        body: bool,
        actions: &mut Vec<Action<Payload<T>, Request, Response>>,
    )
        ensures
            action_views(final(actions)@) == action_views(old(actions)@) + http_end(
                timed,
                context,
                ok,
                body,
            ),
    {
        actions.push(Action::EndRequest { context });
        if timed {
            push_request_end(actions, true, ok);
        }
        if body {
            actions.push(Action::CloseBody);
        }
        proof {
            let end = http_end::<T, Request>(timed, context, ok, body);
            assert(actions@ =~= old(actions)@ + end);
            lemma_views_add(old(actions)@, end);
            lemma_views_end::<T>(timed, context, ok, body);
        }
    }

    /// Takes the next event and says what the driver has to do. The request of a call
    /// has the metadata among its headers.
    pub fn step(self, event: HttpEvent<X>) -> (outcome: (
        HttpRequest<T, X>,
        Vec<Action<Payload<T>, Request, Response>>,
    ))
        requires
            event.wf(),
        ensures
            outcome.0 == self.next(event).0,
            action_views(outcome.1@) == self.next(event).1,
    {
        let ghost start = self;
        let ghost given = event;
        let timed: bool = self.timed;
        let observed: bool = self.observed;
        let mut actions: Vec<Action<Payload<T>, Request, Response>> = Vec::new();
        let phase = match (self.phase, event) {
            (HttpPhase::Beginning { value }, HttpEvent::Begun { begun: Ok(context), call_id }) => {
                let call_context = context.clone().with_stream_id(call_id);
                Self::push_when(timed, Metric::ActiveUp, &mut actions);
                actions.push(Action::ConsumeMessage { context: context.clone(), value });
                HttpPhase::Consuming { context, call_context }
            },
            (HttpPhase::Beginning { .. }, HttpEvent::Begun { begun: Err(_), .. }) => {
                Self::push_when(timed, Metric::BeginRequestFailed, &mut actions);
                HttpPhase::Finished { result: None }
            },
            (
                HttpPhase::Consuming { context, call_context },
                HttpEvent::Consumed { result: Ok(_), requester, metadata },
            ) => {
                let mut requester = requester;
                match requester.take_request() {
                    Ok(request) => {
                        let mut request = request;
                        request.extend_headers(&metadata);
                        Self::push_when(observed, Metric::CallStarted, &mut actions);
                        actions.push(Action::Call { context: call_context, request });
                        HttpPhase::Calling { context }
                    },
                    Err(error) => {
                        Self::push_end(timed, context, false, false, &mut actions);
                        HttpPhase::Finished { result: Some(Err(error)) }
                    },
                }
            },
            (
                HttpPhase::Consuming { context, .. },
                HttpEvent::Consumed { result: Err(error), .. },
            ) => {
                Self::push_end(timed, context, false, false, &mut actions);
                HttpPhase::Finished { result: Some(Err(error)) }
            },
            (HttpPhase::Calling { context }, HttpEvent::Called(Ok(response))) => {
                Self::push_when(observed, Metric::CallSucceeded, &mut actions);
                actions.push(Action::HandleResponse { context: context.clone(), response });
                HttpPhase::Handling { context }
            },
            (HttpPhase::Calling { context }, HttpEvent::Called(Err(error))) => {
                Self::push_when(observed, Metric::CallFailed, &mut actions);
                Self::push_end(timed, context, false, false, &mut actions);
                HttpPhase::Finished { result: Some(Err(error)) }
            },
            (HttpPhase::Handling { context }, HttpEvent::Handled(result)) => {
                let ok: bool = succeeded(&result);
                Self::push_end(timed, context, ok, true, &mut actions);
                HttpPhase::Finished { result: Some(result) }
            },
            (phase, _) => phase,
        };
        assert(action_views(actions@) =~= start.next(given).1);
        (HttpRequest { timed, observed, phase }, actions)
    }

    /// The result that `end_request` gets, once the request is over.
    pub fn result(&self) -> (result: Option<&HandlerResult<(), X>>)
        ensures
            match result {
                Some(r) => self.phase == (HttpPhase::Finished::<T, X> { result: Some(*r) }),
                None => !(self.phase matches HttpPhase::Finished { result: Some(_) }),
            },
    {
        match &self.phase {
            HttpPhase::Finished { result } => result.as_ref(),
            _ => None,
        }
    }
}

/// The consumer of an HTTP sink.
pub struct EndpointConsumer<R, E> {
    pub stream_context: StreamContext<R, E>,
    pub endpoint_name: String,
    pub scope: MetricScope,
    pub method: &'static str,
    pub metric_url: String,
    pub timed: bool,
}

/// The URL that the client's metrics are kept under: the connector's address
/// without trailing slashes, then the path behind exactly one slash.
pub open spec fn metric_url(address: Seq<char>, path: Seq<char>) -> Seq<char> {
    without_trailing(address, '/') + (if path.len() > 0 && path[0] == '/' {
        ""@
    } else {
        "/"@
    }) + path
}

fn make_metric_url(address: &str, path: &str) -> (url: String)
    ensures
        url@ == metric_url(address@, path@),
{
    let mut url = trim_trailing(address, '/');
    let rooted: bool = path.unicode_len() > 0 && path.get_char(0) == '/';
    if rooted {
        url.append("");
    } else {
        url.append("/");
    }
    url.append(path);
    url
}

/// Makes the consumer for an endpoint and installs it on `stream` once its instruments
/// are set up: `instruments` is what that came to.
pub fn make_endpoint_consumer<T, R, E>(
    stream: &mut SinkStreamWithResult<T, R, E, EndpointConsumer<R, E>>,
    endpoint_config: HttpEndpointConfig,
    data_connector_config: HttpDataConnectorConfig,
    environment: &RuntimeEnvironment,
    instruments: RuntimeResult<()>,
) -> (result: RuntimeResult<()>)
    ensures
        final(stream).spec_result_stream() == old(stream).spec_result_stream(),
        final(stream).spec_error_stream() == old(stream).spec_error_stream(),
        match instruments {
            Ok(_) => {
                &&& result is Ok
                &&& final(stream).spec_consumer() matches Some(consumer) && {
                    &&& consumer.endpoint_name@ == endpoint_config.name@
                    &&& consumer.timed == environment@.metrics
                    &&& consumer.method@ == method_text(endpoint_config.http_method_type)
                    &&& consumer.metric_url@ == metric_url(
                        data_connector_config.address@,
                        endpoint_config.path@,
                    )
                    &&& is_endpoint_scope(
                        consumer.scope,
                        Side::Sink,
                        data_connector_config.name@,
                        endpoint_config.name@,
                        None,
                    )
                    &&& consumer.stream_context.spec_base().spec_result_stream() == old(
                        stream,
                    ).spec_result_stream()
                    &&& consumer.stream_context.spec_base().spec_error_stream() == old(
                        stream,
                    ).spec_error_stream()
                }
            },
            Err(failure) => {
                &&& result is Err
                &&& result->Err_0@ == failure@
                &&& final(stream).spec_consumer() == old(stream).spec_consumer()
            },
        },
{
    match instruments {
        Ok(_) => {},
        Err(error) => return Err(error),
    }
    let method = endpoint_config.http_method_type.name();
    let metric_url = make_metric_url(
        data_connector_config.address.as_str(),
        endpoint_config.path.as_str(),
    );
    let scope = endpoint_scope(
        Side::Sink,
        data_connector_config.name.as_str(),
        endpoint_config.name.as_str(),
        None,
    );
    let base = SinkStreamContext::new(*stream.stream(), *stream.error_stream());
    let consumer = EndpointConsumer {
        stream_context: StreamContext { base },
        endpoint_name: endpoint_config.name,
        scope,
        method,
        metric_url,
        timed: environment.metrics_enabled(),
    };
    stream.set_sink_consumer(consumer)
}

impl<R, E> EndpointConsumer<R, E> {
    /// Opens a request for a message: `begin_request` runs first.
    pub fn consume<T, X>(&self, context: MessageContext, value: Payload<T>) -> (opened: (
        HttpRequest<T, X>,
        Vec<Action<Payload<T>, Request, Response>>,
    ))
        ensures
            opened.0 == (HttpRequest::<T, X> {
                timed: self.timed,
                observed: self.timed,
                phase: HttpPhase::Beginning { value },
            }),
            opened.1@ == one(Action::<Payload<T>, Request, Response>::BeginRequest { context }),
    {
        let mut actions: Vec<Action<Payload<T>, Request, Response>> = Vec::new();
        actions.push(Action::BeginRequest { context });
        (
            HttpRequest {
                timed: self.timed,
                observed: self.timed,
                phase: HttpPhase::Beginning { value },
            },
            actions,
        )
    }
}

/// Where a request stands after some events, and all it asked for on the way.
pub open spec fn run<T, X>(request: HttpRequest<T, X>, events: Seq<HttpEvent<X>>) -> (
    HttpRequest<T, X>,
    Seq<Action<Payload<T>, RequestView, Response>>,
)
    decreases events.len(),
{
    if events.len() == 0 {
        (request, Seq::empty())
    } else {
        let before = run(request, events.drop_last());
        let after = before.0.next(events.last());
        (after.0, before.1 + after.1)
    }
}

/// What a request has asked for by the time it stands where it stands.
pub open spec fn accounted<T, X>(
    request: HttpRequest<T, X>,
    actions: Seq<Action<Payload<T>, RequestView, Response>>,
) -> bool {
    let failed = request.phase == (HttpPhase::Finished::<T, X> { result: None });
    let begun = !(request.phase is Beginning) && !failed;
    let over = request.phase matches HttpPhase::Finished { result: Some(_) };
    let ok = request.phase matches HttpPhase::Finished { result: Some(Ok(_)) };
    let timed = request.timed;
    &&& tally(actions, Kind::ConsumeMessage) == (if begun { 1nat } else { 0 })
    &&& tally(actions, Kind::EndRequest) == (if over { 1nat } else { 0 })
    &&& tally(actions, Kind::Record(Metric::ActiveUp)) == (if timed && begun { 1nat } else { 0 })
    &&& tally(actions, Kind::Record(Metric::ActiveDown)) == (if timed && over { 1nat } else { 0 })
    &&& tally(actions, Kind::Record(Metric::MessagesTotal)) == (if timed && ok { 1nat } else { 0 })
    &&& tally(actions, Kind::Record(Metric::RequestError)) == (if timed && over && !ok {
        1nat
    } else {
        0
    })
    &&& tally(actions, Kind::Record(Metric::BeginRequestFailed)) == (if timed && failed {
        1nat
    } else {
        0
    })
    &&& tally(actions, Kind::Call) <= 1
    &&& request.phase is Beginning || request.phase is Consuming ==> tally(actions, Kind::Call) == 0
    &&& request.phase is Calling || request.phase is Handling ==> tally(actions, Kind::Call) == 1
    &&& tally(actions, Kind::HandleResponse) <= tally(actions, Kind::Call)
    &&& request.phase is Calling ==> tally(actions, Kind::HandleResponse) == 0
    &&& request.phase is Handling || ok ==> tally(actions, Kind::HandleResponse) == 1
    &&& tally(actions, Kind::CloseBody) == (if over {
        tally(actions, Kind::HandleResponse)
    } else {
        0
    })
}

proof fn lemma_step_accounted<T, X>(
    request: HttpRequest<T, X>,
    actions: Seq<Action<Payload<T>, RequestView, Response>>,
    event: HttpEvent<X>,
)
    requires
        accounted(request, actions),
    ensures
        accounted(request.next(event).0, actions + request.next(event).1),
        request.next(event).0.timed == request.timed,
{
    broadcast use group_tally;

}

/// Whatever the driver reports, and in whatever order: a request that began is
/// consumed once and ended exactly once when it is over, and a response whose
/// handling was asked for has its body closed, exactly once and never before
/// `end_request`. Where metrics are recorded, the request is active from its
/// beginning to its end and counts once, as a message or as an error; where they are
/// not, none is touched.
pub proof fn law_request_accounting<T, X>(
    timed: bool,
    observed: bool,
    value: Payload<T>,
    events: Seq<HttpEvent<X>>,
)
    ensures
        ({
            let start = HttpRequest::<T, X> {
                timed,
                observed,
                phase: HttpPhase::Beginning { value },
            };
            &&& accounted(run(start, events).0, run(start, events).1)
            &&& run(start, events).0.timed == timed
        }),
    decreases events.len(),
{
    let start = HttpRequest::<T, X> { timed, observed, phase: HttpPhase::Beginning { value } };
    if events.len() == 0 {
        broadcast use group_tally;

    } else {
        law_request_accounting::<T, X>(timed, observed, value, events.drop_last());
        let before = run(start, events.drop_last());
        lemma_step_accounted(before.0, before.1, events.last());
    }
}

proof fn lemma_step_closes_last<T, X>(
    request: HttpRequest<T, X>,
    actions: Seq<Action<Payload<T>, RequestView, Response>>,
    event: HttpEvent<X>,
)
    requires
        accounted(request, actions),
        follows(actions, Kind::CloseBody, Kind::EndRequest),
    ensures
        follows(actions + request.next(event).1, Kind::CloseBody, Kind::EndRequest),
{
    broadcast use {group_tally, follows_push};

    let asked = request.next(event).1;
    match (request.phase, event) {
        (HttpPhase::Handling { context }, HttpEvent::Handled(result)) => {
            let end = one(Action::<Payload<T>, RequestView, Response>::EndRequest { context });
            let metrics: Seq<Action<Payload<T>, RequestView, Response>> = if request.timed {
                request_end(true, result is Ok)
            } else {
                Seq::empty()
            };
            lemma_follows_add(actions, end, Kind::CloseBody, Kind::EndRequest);
            lemma_follows_add(actions + end, metrics, Kind::CloseBody, Kind::EndRequest);
            assert(actions + asked =~= (actions + end + metrics).push(Action::CloseBody));
        },
        _ => {
            lemma_follows_add(actions, asked, Kind::CloseBody, Kind::EndRequest);
        },
    }
}

/// The body of a response is closed only after `end_request`, so that a handler may
/// read it until the very end.
pub proof fn law_body_closed_after_end<T, X>(
    timed: bool,
    observed: bool,
    value: Payload<T>,
    events: Seq<HttpEvent<X>>,
)
    ensures
        ({
            let start = HttpRequest::<T, X> {
                timed,
                observed,
                phase: HttpPhase::Beginning { value },
            };
            follows(run(start, events).1, Kind::CloseBody, Kind::EndRequest)
        }),
    decreases events.len(),
{
    let start = HttpRequest::<T, X> { timed, observed, phase: HttpPhase::Beginning { value } };
    if events.len() == 0 {
        broadcast use follows_empty;

    } else {
        law_body_closed_after_end::<T, X>(timed, observed, value, events.drop_last());
        law_request_accounting::<T, X>(timed, observed, value, events.drop_last());
        let before = run(start, events.drop_last());
        lemma_step_closes_last(before.0, before.1, events.last());
    }
}

/// The result of a request is what ended it, as it was reported: the error of
/// `consume_message` or of the call, what `handle_response` returned, or the fault of a
/// handler that created no request. Nothing else ends a request, and an event that it does
/// not wait for changes nothing.
pub proof fn law_result_is_what_ended_the_request<T, X>(
    request: HttpRequest<T, X>,
    event: HttpEvent<X>,
)
    ensures
        ({
            let (after, asked) = request.next(event);
            let over = |result: HandlerResult<(), X>|
                after.phase == (HttpPhase::Finished::<T, X> { result: Some(result) });
            &&& after.timed == request.timed
            &&& after.observed == request.observed
            &&& match (request.phase, event) {
                (HttpPhase::Beginning { .. }, HttpEvent::Begun { begun: Ok(_), .. }) => after.phase
                    is Consuming,
                (HttpPhase::Beginning { .. }, HttpEvent::Begun { begun: Err(_), .. }) => after.phase
                    == (HttpPhase::Finished::<T, X> { result: None }),
                (HttpPhase::Consuming { .. }, HttpEvent::Consumed { result: Err(error), .. }) =>
                    over(Err(error)),
                (
                    HttpPhase::Consuming { context, .. },
                    HttpEvent::Consumed { result: Ok(_), requester, .. },
                ) => if requester.spec_request() is Some {
                    after.phase == (HttpPhase::Calling::<T, X> { context })
                } else {
                    over(Err(HandlerError::Fault(Fault::HttpRequestNotCreated)))
                },
                (HttpPhase::Calling { context }, HttpEvent::Called(Ok(_))) => after.phase
                    == (HttpPhase::Handling::<T, X> { context }),
                (HttpPhase::Calling { .. }, HttpEvent::Called(Err(error))) => over(Err(error)),
                (HttpPhase::Handling { .. }, HttpEvent::Handled(result)) => over(result),
                _ => after == request && asked.len() == 0,
            }
        }),
{
}

/// A request that ends hands `end_request` its own context and then counts by its result,
/// where metrics are recorded: as a message if and only if the result is a success, else
/// as an error. The body of a response that was handed out is closed, and that of no
/// other; a call that failed is counted as such where calls are.
pub proof fn law_end_counts_the_result<T, X>(request: HttpRequest<T, X>, event: HttpEvent<X>)
    requires
        !(request.phase is Finished),
    ensures
        ({
            let (after, asked) = request.next(event);
            let timed = request.timed;
            let failed_call = request.phase is Calling && request.observed;
            let context = match request.phase {
                HttpPhase::Consuming { context, .. } => Some(context),
                HttpPhase::Calling { context } => Some(context),
                HttpPhase::Handling { context } => Some(context),
                _ => None,
            };
            &&& context matches Some(own) ==> under(asked, own)
            &&& match after.phase {
                HttpPhase::Finished { result: Some(result) } => {
                    let ok = result is Ok;
                    &&& context is Some
                    &&& forall|kind: Kind|
                        #[trigger] tally(asked, kind) == (match kind {
                            Kind::EndRequest => 1nat,
                            Kind::Record(Metric::ActiveDown) if timed => 1nat,
                            Kind::Record(Metric::Duration) if timed => 1nat,
                            Kind::Record(Metric::MessagesTotal) if timed && ok => 1nat,
                            Kind::Record(Metric::RequestError) if timed && !ok => 1nat,
                            Kind::Record(Metric::CallFailed) if failed_call => 1nat,
                            Kind::CloseBody if request.phase is Handling => 1nat,
                            _ => 0nat,
                        })
                },
                HttpPhase::Finished { result: None } => forall|kind: Kind|
                    #[trigger] tally(asked, kind) == (if timed && kind == Kind::Record(
                        Metric::BeginRequestFailed,
                    ) {
                        1nat
                    } else {
                        0
                    }),
                _ => tally(asked, Kind::EndRequest) == 0,
            }
        }),
{
    broadcast use {group_tally, group_under};

}

/// A message is handed to the handler as it came, in the context that `begin_request`
/// returned; the request that the handler created goes out once, as it was created, with
/// the metadata among its headers and under a stream id of the call's own; and the
/// response is handed to the handler as it came.
pub proof fn law_message_request_and_response_are_kept<T, X>(
    request: HttpRequest<T, X>,
    event: HttpEvent<X>,
)
    ensures
        ({
            let (after, asked) = request.next(event);
            let counts = |kind: Metric, recorded: bool| {
                &&& asked.len() == (if recorded {
                    2int
                } else {
                    1
                })
                &&& recorded ==> asked[0] == Action::<
                    Payload<T>,
                    RequestView,
                    Response,
                >::Record(kind)
            };
            match (request.phase, event) {
                (
                    HttpPhase::Beginning { value },
                    HttpEvent::Begun { begun: Ok(context), call_id },
                ) => {
                    &&& after.phase matches HttpPhase::Consuming { context: own, call_context } && {
                        &&& own == context
                        &&& call_context.spec_stream_id() == Some(call_id)
                        &&& call_context.same_but_stream(&context)
                    }
                    &&& counts(Metric::ActiveUp, request.timed)
                    &&& asked.last() == (Action::<
                        Payload<T>,
                        RequestView,
                        Response,
                    >::ConsumeMessage { context, value })
                },
                (
                    HttpPhase::Consuming { call_context, .. },
                    HttpEvent::Consumed { result: Ok(_), requester, metadata },
                ) => requester.spec_request() matches Some(created) ==> {
                    &&& counts(Metric::CallStarted, request.observed)
                    &&& asked.last() matches Action::Call { context: out, request: sent } && {
                        &&& out == call_context
                        &&& sent.method == created.method@
                        &&& sent.url == created.url@
                        &&& sent.body == created.body@
                        &&& sent.timeout == created.timeout
                        &&& forall|name: Seq<char>|
                            #[trigger] sent.headers.contains_key(name) <==> (
                            created.headers@.contains_key(name) || metadata@.contains_key(name))
                        &&& forall|name: Seq<char>|
                            sent.headers.contains_key(name) ==> #[trigger] sent.headers[name] == (
                            if metadata@.contains_key(name) {
                                metadata@[name]
                            } else {
                                created.headers@[name]
                            })
                    }
                },
                (HttpPhase::Calling { context }, HttpEvent::Called(Ok(response))) => {
                    &&& counts(Metric::CallSucceeded, request.observed)
                    &&& asked.last() == (Action::<
                        Payload<T>,
                        RequestView,
                        Response,
                    >::HandleResponse { context, response })
                },
                _ => true,
            }
        }),
{
    match (request.phase, event) {
        (HttpPhase::Beginning { .. }, HttpEvent::Begun { begun: Ok(context), call_id }) => {
            law_only_the_stream_id_changes(context, call_id, call_id);
        },
        _ => {},
    }
}

/// Whether an event reports an error.
pub open spec fn reports<X>(event: HttpEvent<X>, error: HandlerError<X>) -> bool {
    match event {
        HttpEvent::Consumed { result: Err(e), .. } => e == error,
        HttpEvent::Called(Err(e)) => e == error,
        HttpEvent::Handled(Err(e)) => e == error,
        _ => false,
    }
}

/// Whatever the driver reports, and in whatever order: a request that succeeded had its
/// response handled with success, and one that failed was told of just that error, unless
/// its handler created no request.
pub proof fn law_result_was_reported<T, X>(
    timed: bool,
    observed: bool,
    value: Payload<T>,
    events: Seq<HttpEvent<X>>,
)
    ensures
        ({
            let start = HttpRequest::<T, X> {
                timed,
                observed,
                phase: HttpPhase::Beginning { value },
            };
            match run(start, events).0.phase {
                HttpPhase::Finished { result: Some(Ok(_)) } => exists|i: int|
                    0 <= i < events.len() && (#[trigger] events[i] matches HttpEvent::Handled(
                        Ok(_),
                    )),
                HttpPhase::Finished { result: Some(Err(error)) } => {
                    ||| exists|i: int|
                        0 <= i < events.len() && reports(#[trigger] events[i], error)
                    ||| error == HandlerError::<X>::Fault(Fault::HttpRequestNotCreated)
                },
                _ => true,
            }
        }),
    decreases events.len(),
{
    let start = HttpRequest::<T, X> { timed, observed, phase: HttpPhase::Beginning { value } };
    if events.len() > 0 {
        let front = events.drop_last();
        law_result_was_reported::<T, X>(timed, observed, value, front);
        let before = run(start, front).0;
        assert(events[events.len() - 1] == events.last());
        law_result_is_what_ended_the_request(before, events.last());
        match before.phase {
            HttpPhase::Finished { result: Some(Ok(_)) } => {
                let i = choose|i: int|
                    0 <= i < front.len() && (#[trigger] front[i] matches HttpEvent::Handled(Ok(_)));
                assert(events[i] == front[i]);
            },
            HttpPhase::Finished { result: Some(Err(error)) } => {
                if exists|i: int| 0 <= i < front.len() && reports(#[trigger] front[i], error) {
                    let i = choose|i: int|
                        0 <= i < front.len() && reports(#[trigger] front[i], error);
                    assert(events[i] == front[i]);
                }
            },
            _ => {
                match run(start, events).0.phase {
                    HttpPhase::Finished { result: Some(Err(error)) } => {
                        assert(reports(events[events.len() - 1], error) || error == HandlerError::<
                            X,
                        >::Fault(Fault::HttpRequestNotCreated));
                    },
                    _ => {},
                }
            },
        }
    }
}

/// The URL of the metrics has the connector's address in front, but for slashes at its
/// end, and the whole path behind, with exactly one slash in between.
pub proof fn law_metric_url_joins_with_one_slash(address: Seq<char>, path: Seq<char>)
    ensures
        ({
            let url = metric_url(address, path);
            let base = without_trailing(address, '/');
            let rooted = path.len() > 0 && path[0] == '/';
            &&& base.is_prefix_of(address)
            &&& base.len() > 0 ==> base.last() != '/'
            &&& forall|i: int| base.len() <= i < address.len() ==> address[i] == '/'
            &&& base.is_prefix_of(url)
            &&& url.len() == base.len() + path.len() + (if rooted {
                0int
            } else {
                1
            })
            &&& url[base.len() as int] == '/'
            &&& url.subrange(url.len() - path.len(), url.len() as int) == path
        }),
{
    reveal_strlit("");
    reveal_strlit("/");
    law_trailing_characters_go(address, '/');
    let url = metric_url(address, path);
    let base = without_trailing(address, '/');
    assert(base =~= url.subrange(0, base.len() as int));
    assert(url.subrange(url.len() - path.len(), url.len() as int) =~= path);
}

/// A call that failed is counted first; then `end_request` runs, and only then the request
/// counts; the body of the response is closed last of all.
pub proof fn law_end_request_comes_before_the_counts<T, X>(
    request: HttpRequest<T, X>,
    event: HttpEvent<X>,
)
    requires
        !(request.phase is Finished),
    ensures
        ({
            let (after, asked) = request.next(event);
            after.phase matches HttpPhase::Finished { result: Some(result) } ==> {
                let failed_call = request.phase is Calling && request.observed;
                let at = if failed_call {
                    1int
                } else {
                    0
                };
                let counted = |metric: Metric|
                    Action::<Payload<T>, RequestView, Response>::Record(metric);
                &&& failed_call ==> asked[0] == counted(Metric::CallFailed)
                &&& asked[at] is EndRequest
                &&& request.timed ==> {
                    &&& asked[at + 1] == counted(Metric::ActiveDown)
                    &&& asked[at + 3] == counted(
                        if result is Ok {
                            Metric::MessagesTotal
                        } else {
                            Metric::RequestError
                        },
                    )
                }
                &&& request.phase is Handling ==> asked.last() is CloseBody
            }
        }),
{
    reveal(request_end);
}

/// Actions with their requests as characters and bytes are the same actions, in the same order:
/// of the same kinds, with the same contexts, messages and responses, and the same request.
pub proof fn law_views_keep_the_actions<T>(
    actions: Seq<Action<Payload<T>, Request, Response>>,
    index: int,
)
    requires
        0 <= index < actions.len(),
    ensures
        ({
            let seen = action_views(actions)[index];
            &&& action_views(actions).len() == actions.len()
            &&& seen.kind() == actions[index].kind()
            &&& seen.handed() == actions[index].handed()
            &&& match actions[index] {
                Action::BeginRequest { context } => seen matches Action::BeginRequest {
                    context: c,
                } && c == context,
                Action::ConsumeMessage { value, .. } => seen matches Action::ConsumeMessage {
                    value: v,
                    ..
                } && v == value,
                Action::Call { context, request } => seen matches Action::Call {
                    context: c,
                    request: sent,
                } && c == context && sent.method == request.method@ && sent.url == request.url@
                    && sent.body == request.body@ && sent.headers == request.headers@
                    && sent.timeout == request.timeout,
                Action::HandleResponse { response, .. } => seen matches Action::HandleResponse {
                    response: r,
                    ..
                } && r == response,
                Action::Defer { value } => seen matches Action::Defer { value: v } && v == value,
                Action::NotifySink { value, .. } => seen matches Action::NotifySink {
                    value: v,
                    ..
                } && v == value,
                _ => true,
            }
        }),
{
}

} // verus!
