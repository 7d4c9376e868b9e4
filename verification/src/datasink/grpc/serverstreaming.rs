//! gRPC sinks that send one request and get a stream of responses.
use vstd::prelude::*;

use crate::datasink::grpc::endpoint::{
    is_sink_metrics, sink_metrics_error, EndpointMetrics, RequestSender,
};
use crate::operators::sink::SinkStreamWithResult;
use crate::runtime::common::{MessageContext, Payload};
use crate::runtime::environment::RuntimeEnvironment;
use crate::runtime::error::{Fault, HandlerError, HandlerResult, RuntimeResult};
use crate::runtime::request::{
    group_tally, group_under, one, push_request_end, request_end, succeeded, tally, two, under,
    Action, Kind, Metric,
};

verus! {

/// How far a request has come.
pub enum ServerStreamingPhase<T, X> {
    /// `begin_request` is running.
    Beginning { value: Payload<T> },
    /// `consume_message` is running.
    Consuming { context: MessageContext },
    /// The call is being opened.
    Opening { context: MessageContext },
    /// The next response is awaited.
    Receiving { context: MessageContext },
    /// `handle_response` is running.
    Handling { context: MessageContext },
    /// Over. There is no result where `begin_request` failed.
    Finished { result: Option<HandlerResult<(), X>> },
}

/// What the driver reports.
pub enum ServerStreamingEvent<Req, Res, X> {
    /// `begin_request` returned, with the context to go on with.
    Begun(HandlerResult<MessageContext, X>),
    /// `consume_message` returned; `sender` holds what it sent.
    Consumed { result: HandlerResult<(), X>, sender: RequestSender<Req> },
    /// The call was opened, or not.
    Opened(HandlerResult<(), X>),
    /// A response came, or an error, or the end of the stream.
    Received(Option<HandlerResult<Res, X>>),
    /// `handle_response` returned.
    Handled(HandlerResult<(), X>),
}

/// One request of a gRPC sink with a stream of responses.
pub struct ServerStreamingRequest<T, X> {
    pub timed: bool,
    pub phase: ServerStreamingPhase<T, X>,
}

/// The end of a request: `end_request` runs, then the metrics are updated.
pub open spec fn finish<T, Req, Res, X>(
    timed: bool,
    context: MessageContext,
    result: HandlerResult<(), X>,
) -> (ServerStreamingRequest<T, X>, Seq<Action<Payload<T>, Req, Res>>) {
    (
        ServerStreamingRequest { timed, phase: ServerStreamingPhase::Finished { result: Some(result) } },
        one(Action::EndRequest { context }) + request_end(timed, result is Ok),
    )
}

impl<T, X> ServerStreamingRequest<T, X> {
    /// What an event leads to. An event that the phase does not wait for changes
    /// nothing.
    pub open spec fn next<Req, Res>(self, event: ServerStreamingEvent<Req, Res, X>) -> (
        ServerStreamingRequest<T, X>,
        Seq<Action<Payload<T>, Req, Res>>,
    ) {
        let timed = self.timed;
        match (self.phase, event) {
            (ServerStreamingPhase::Beginning { value }, ServerStreamingEvent::Begun(Ok(context))) => (
                ServerStreamingRequest { timed, phase: ServerStreamingPhase::Consuming { context } },
                two(
                    Action::Record(Metric::ActiveUp),
                    Action::ConsumeMessage { context, value },
                ),
            ),
            (ServerStreamingPhase::Beginning { .. }, ServerStreamingEvent::Begun(Err(_))) => (
                ServerStreamingRequest { timed, phase: ServerStreamingPhase::Finished { result: None } },
                one(Action::Record(Metric::BeginRequestFailed)),
            ),
            (
                ServerStreamingPhase::Consuming { context },
                ServerStreamingEvent::Consumed { result: Ok(_), sender },
            ) => match sender.spec_request() {
                Some(request) => (
                    ServerStreamingRequest { timed, phase: ServerStreamingPhase::Opening { context } },
                    two(Action::Record(Metric::CallStarted), Action::Call { context, request }),
                ),
                None => finish(
                    timed,
                    context,
                    Err(HandlerError::Fault(Fault::GrpcRequestNotSent)),
                ),
            },
            (
                ServerStreamingPhase::Consuming { context },
                ServerStreamingEvent::Consumed { result: Err(error), .. },
            ) => finish(timed, context, Err(error)),
            (ServerStreamingPhase::Opening { context }, ServerStreamingEvent::Opened(Ok(_))) => (
                ServerStreamingRequest {
                    timed,
                    phase: ServerStreamingPhase::Receiving { context },
                },
                one(Action::Receive),
            ),
            (ServerStreamingPhase::Opening { context }, ServerStreamingEvent::Opened(Err(error))) => {
                let end = finish(timed, context, Err(error));
                (end.0, one(Action::Record(Metric::CallFailed)) + end.1)
            },
            (
                ServerStreamingPhase::Receiving { context },
                ServerStreamingEvent::Received(Some(Ok(response))),
            ) => (
                ServerStreamingRequest { timed, phase: ServerStreamingPhase::Handling { context } },
                one(Action::HandleResponse { context, response }),
            ),
            (
                ServerStreamingPhase::Receiving { context },
                ServerStreamingEvent::Received(Some(Err(error))),
            ) => {
                let end = finish(timed, context, Err(error));
                (end.0, one(Action::Record(Metric::CallUnknown)) + end.1)
            },
            (ServerStreamingPhase::Receiving { context }, ServerStreamingEvent::Received(None)) => {
                let end = finish(timed, context, Ok(()));
                (end.0, one(Action::Record(Metric::CallSucceeded)) + end.1)
            },
            (ServerStreamingPhase::Handling { context }, ServerStreamingEvent::Handled(Ok(_))) => (
                ServerStreamingRequest {
                    timed,
                    phase: ServerStreamingPhase::Receiving { context },
                },
                one(Action::Receive),
            ),
            (
                ServerStreamingPhase::Handling { context },
                ServerStreamingEvent::Handled(Err(error)),
            ) => {
                let end = finish(timed, context, Err(error));
                (end.0, one(Action::Record(Metric::CallUnknown)) + end.1)
            },
            _ => (self, Seq::empty()),
        }
    }

    fn finish_with<Req, Res>(
        timed: bool,
        context: MessageContext,
        result: HandlerResult<(), X>,
        actions: &mut Vec<Action<Payload<T>, Req, Res>>,
    ) -> (request: ServerStreamingRequest<T, X>)
        ensures
            request == finish::<T, Req, Res, X>(timed, context, result).0,
            final(actions)@ == old(actions)@ + finish::<T, Req, Res, X>(
                timed,
                context,
                result,
            ).1,
    {
        let ok: bool = succeeded(&result);
        actions.push(Action::EndRequest { context });
        push_request_end(actions, timed, ok);
        assert(actions@ =~= old(actions)@ + finish::<T, Req, Res, X>(timed, context, result).1);
        ServerStreamingRequest { timed, phase: ServerStreamingPhase::Finished { result: Some(result) } }
    }

    /// Takes the next event and says what the driver has to do.
    pub fn step<Req, Res>(self, event: ServerStreamingEvent<Req, Res, X>) -> (outcome: (
        ServerStreamingRequest<T, X>,
        Vec<Action<Payload<T>, Req, Res>>,
    ))
        ensures
            outcome.0 == self.next(event).0,
            outcome.1@ == self.next(event).1,
    {
        let ghost start = self;
        let ghost given = event;
        let timed: bool = self.timed;
        let mut actions: Vec<Action<Payload<T>, Req, Res>> = Vec::new();
        let request = match (self.phase, event) {
            (ServerStreamingPhase::Beginning { value }, ServerStreamingEvent::Begun(Ok(context))) => {
                actions.push(Action::Record(Metric::ActiveUp));
                actions.push(Action::ConsumeMessage { context: context.clone(), value });
                ServerStreamingRequest { timed, phase: ServerStreamingPhase::Consuming { context } }
            },
            (ServerStreamingPhase::Beginning { .. }, ServerStreamingEvent::Begun(Err(_))) => {
                actions.push(Action::Record(Metric::BeginRequestFailed));
                ServerStreamingRequest { timed, phase: ServerStreamingPhase::Finished { result: None } }
            },
            (
                ServerStreamingPhase::Consuming { context },
                ServerStreamingEvent::Consumed { result: Ok(_), sender },
            ) => {
                let mut sender = sender;
                match sender.take() {
                    Ok(request) => {
                        actions.push(Action::Record(Metric::CallStarted));
                        actions.push(Action::Call { context: context.clone(), request });
                        ServerStreamingRequest { timed, phase: ServerStreamingPhase::Opening { context } }
                    },
                    Err(error) => Self::finish_with(timed, context, Err(error), &mut actions),
                }
            },
            (
                ServerStreamingPhase::Consuming { context },
                ServerStreamingEvent::Consumed { result: Err(error), .. },
            ) => Self::finish_with(timed, context, Err(error), &mut actions),
            (ServerStreamingPhase::Opening { context }, ServerStreamingEvent::Opened(Ok(_))) => {
                actions.push(Action::Receive);
                ServerStreamingRequest { timed, phase: ServerStreamingPhase::Receiving { context } }
            },
            (ServerStreamingPhase::Opening { context }, ServerStreamingEvent::Opened(Err(error))) => {
                actions.push(Action::Record(Metric::CallFailed));
                Self::finish_with(timed, context, Err(error), &mut actions)
            },
            (
                ServerStreamingPhase::Receiving { context },
                ServerStreamingEvent::Received(Some(Ok(response))),
            ) => {
                actions.push(Action::HandleResponse { context: context.clone(), response });
                ServerStreamingRequest { timed, phase: ServerStreamingPhase::Handling { context } }
            },
            (
                ServerStreamingPhase::Receiving { context },
                ServerStreamingEvent::Received(Some(Err(error))),
            ) => {
                actions.push(Action::Record(Metric::CallUnknown));
                Self::finish_with(timed, context, Err(error), &mut actions)
            },
            (ServerStreamingPhase::Receiving { context }, ServerStreamingEvent::Received(None)) => {
                actions.push(Action::Record(Metric::CallSucceeded));
                Self::finish_with(timed, context, Ok(()), &mut actions)
            },
            (ServerStreamingPhase::Handling { context }, ServerStreamingEvent::Handled(Ok(_))) => {
                actions.push(Action::Receive);
                ServerStreamingRequest { timed, phase: ServerStreamingPhase::Receiving { context } }
            },
            (
                ServerStreamingPhase::Handling { context },
                ServerStreamingEvent::Handled(Err(error)),
            ) => {
                actions.push(Action::Record(Metric::CallUnknown));
                Self::finish_with(timed, context, Err(error), &mut actions)
            },
            (phase, _) => ServerStreamingRequest { timed, phase },
        };
        assert(actions@ =~= start.next(given).1);
        (request, actions)
    }

    /// The result that `end_request` gets, once the request is over.
    pub fn result(&self) -> (result: Option<&HandlerResult<(), X>>)
        ensures
            match result {
                Some(r) => self.phase == (ServerStreamingPhase::Finished::<T, X> { result: Some(*r) }),
                None => !(self.phase matches ServerStreamingPhase::Finished { result: Some(_) }),
            },
    {
        match &self.phase {
            ServerStreamingPhase::Finished { result } => result.as_ref(),
            _ => None,
        }
    }
}

/// The consumer of a gRPC sink with a stream of responses.
pub struct ServerStreamingEndpointConsumer {
    pub metrics: EndpointMetrics,
}

impl ServerStreamingEndpointConsumer {
    /// Opens a request for a message: `begin_request` runs first.
    pub fn consume<T, Req, Res, X>(&self, context: MessageContext, value: Payload<T>) -> (opened: (
        ServerStreamingRequest<T, X>,
        Vec<Action<Payload<T>, Req, Res>>,
    ))
        ensures
            opened.0 == (ServerStreamingRequest::<T, X> {
                timed: self.metrics.enabled,
                phase: ServerStreamingPhase::Beginning { value },
            }),
            opened.1@ == one(Action::<Payload<T>, Req, Res>::BeginRequest { context }),
    {
        let mut actions: Vec<Action<Payload<T>, Req, Res>> = Vec::new();
        actions.push(Action::BeginRequest { context });
        assert(actions@ =~= one(Action::<Payload<T>, Req, Res>::BeginRequest { context }));
        (
            ServerStreamingRequest {
                timed: self.metrics.enabled,
                phase: ServerStreamingPhase::Beginning { value },
            },
            actions,
        )
    }
}

/// Makes the consumer for the endpoint of `stream` and installs it there, once its
/// instruments are set up: `instruments` is what that came to.
pub fn make_grpc_server_streaming_endpoint_consumer<T, R, E>(
    stream: &mut SinkStreamWithResult<T, R, E, ServerStreamingEndpointConsumer>,
    environment: &RuntimeEnvironment,
    instruments: RuntimeResult<()>,
) -> (result: RuntimeResult<()>)
    requires
        old(stream).spec_result_stream().belongs(environment@),
    ensures
        final(stream).spec_result_stream() == old(stream).spec_result_stream(),
        final(stream).spec_error_stream() == old(stream).spec_error_stream(),
        ({
            let id = old(stream).spec_result_stream().spec_id();
            let name = environment@.nodes[old(stream).spec_result_stream().spec_node()].name;
            let failure = sink_metrics_error(environment@.config, id, name, instruments);
            match result {
                Ok(_) => {
                    &&& failure is None
                    &&& final(stream).spec_consumer() is Some
                    &&& is_sink_metrics(
                        final(stream).spec_consumer()->0.metrics,
                        environment@,
                        id,
                    )
                },
                Err(error) => {
                    &&& failure == Some(error@)
                    &&& final(stream).spec_consumer() == old(stream).spec_consumer()
                },
            }
        }),
{
    match EndpointMetrics::new(stream, environment, instruments) {
        Ok(metrics) => stream.set_sink_consumer(ServerStreamingEndpointConsumer { metrics }),
        Err(error) => Err(error),
    }
}

/// Where a request stands after some events, and all it asked for on the way.
pub open spec fn run<T, Req, Res, X>(
    request: ServerStreamingRequest<T, X>,
    events: Seq<ServerStreamingEvent<Req, Res, X>>,
) -> (ServerStreamingRequest<T, X>, Seq<Action<Payload<T>, Req, Res>>)
    decreases events.len(),
{
    if events.len() == 0 {
        (request, Seq::empty())
    } else {
        let before = run(request, events.drop_last());
        let after = before.0.next(events.last());
        (after.0, before.1 + after.1)
    }
}

/// What a request has asked for by the time it stands where it stands.
pub open spec fn accounted<T, Req, Res, X>(
    request: ServerStreamingRequest<T, X>,
    actions: Seq<Action<Payload<T>, Req, Res>>,
) -> bool {
    let begun = !(request.phase is Beginning) && request.phase
        != (ServerStreamingPhase::Finished::<T, X> { result: None });
    let over = request.phase matches ServerStreamingPhase::Finished { result: Some(_) };
    let ok = request.phase matches ServerStreamingPhase::Finished { result: Some(Ok(_)) };
    &&& tally(actions, Kind::ConsumeMessage) == (if begun { 1nat } else { 0 })
    &&& tally(actions, Kind::Record(Metric::ActiveUp)) == (if begun { 1nat } else { 0 })
    &&& tally(actions, Kind::EndRequest) == (if over { 1nat } else { 0 })
    &&& tally(actions, Kind::Record(Metric::ActiveDown)) == (if over { 1nat } else { 0 })
    &&& tally(actions, Kind::Record(Metric::MessagesTotal)) == (if ok { 1nat } else { 0 })
    &&& tally(actions, Kind::Record(Metric::RequestError)) == (if over && !ok {
        1nat
    } else {
        0
    })
    &&& tally(actions, Kind::Record(Metric::BeginRequestFailed)) == (if request.phase
        == (ServerStreamingPhase::Finished::<T, X> { result: None }) {
        1nat
    } else {
        0
    })
    &&& tally(actions, Kind::BeginRequest) == 0
    &&& tally(actions, Kind::Call) <= 1
    &&& request.phase is Opening || request.phase is Receiving || request.phase is Handling
        || ok ==> tally(actions, Kind::Call) == 1
    &&& request.phase is Consuming || request.phase is Beginning ==> tally(
        actions,
        Kind::Call,
    ) == 0
    &&& tally(actions, Kind::Call) == 0 || request.phase is Opening ==> tally(
        actions,
        Kind::Receive,
    ) == 0 && tally(actions, Kind::HandleResponse) == 0
    &&& request.phase is Receiving || ok ==> tally(actions, Kind::Receive) == tally(
        actions,
        Kind::HandleResponse,
    ) + 1
    &&& request.phase is Handling ==> tally(actions, Kind::Receive) == tally(
        actions,
        Kind::HandleResponse,
    )
}

proof fn lemma_step_accounted<T, Req, Res, X>(
    request: ServerStreamingRequest<T, X>,
    actions: Seq<Action<Payload<T>, Req, Res>>,
    event: ServerStreamingEvent<Req, Res, X>,
)
    requires
        accounted(request, actions),
    ensures
        accounted(request.next(event).0, actions + request.next(event).1),
{
    broadcast use group_tally;

}

/// Whatever the driver reports, and in whatever order: a request that began is
/// consumed once, ended at most once and ended exactly once when it is over; it is
/// active from its beginning to its end; at its end it counts once, as a message
/// when its result is a success and as an error otherwise. A request that did not
/// begin is none of these. At most one call is made. Responses are handled one at a
/// time, each before the next is awaited, and a success means that the end of the
/// stream was awaited after the last of them.
pub proof fn law_request_accounting<T, Req, Res, X>(
    timed: bool,
    value: Payload<T>,
    events: Seq<ServerStreamingEvent<Req, Res, X>>,
)
    ensures
        ({
            let start = ServerStreamingRequest::<T, X> {
                timed,
                phase: ServerStreamingPhase::Beginning { value },
            };
            accounted(run(start, events).0, run(start, events).1)
        }),
    decreases events.len(),
{
    let start = ServerStreamingRequest::<T, X> { timed, phase: ServerStreamingPhase::Beginning { value } };
    if events.len() == 0 {
        broadcast use group_tally;

    } else {
        law_request_accounting::<T, Req, Res, X>(timed, value, events.drop_last());
        let before = run(start, events.drop_last());
        lemma_step_accounted(before.0, before.1, events.last());
    }
}

/// The result of a request is what ended it, as it was reported: the error of
/// `consume_message`, of the call or of a response, what handling a response came to if it
/// failed, a success at the end of the stream,
/// or the fault of a handler that sent no request. Nothing else ends a request, and an
/// event that it does not wait for changes nothing.
pub proof fn law_result_is_what_ended_the_request<T, Req, Res, X>(
    request: ServerStreamingRequest<T, X>,
    event: ServerStreamingEvent<Req, Res, X>,
)
    ensures
        ({
            let (after, asked): (ServerStreamingRequest<T, X>, Seq<Action<Payload<T>, Req, Res>>) = request.next(
                event,
            );
            let over = |result: HandlerResult<(), X>|
                after.phase == (ServerStreamingPhase::Finished::<T, X> { result: Some(result) });
            &&& after.timed == request.timed
            &&& match (request.phase, event) {
                (ServerStreamingPhase::Beginning { .. }, ServerStreamingEvent::Begun(Ok(context))) => after.phase
                    == (ServerStreamingPhase::Consuming::<T, X> { context }),
                (ServerStreamingPhase::Beginning { .. }, ServerStreamingEvent::Begun(Err(_))) => after.phase
                    == (ServerStreamingPhase::Finished::<T, X> { result: None }),
                (
                    ServerStreamingPhase::Consuming { .. },
                    ServerStreamingEvent::Consumed { result: Err(error), .. },
                ) => over(Err(error)),
                (
                    ServerStreamingPhase::Consuming { context },
                    ServerStreamingEvent::Consumed { result: Ok(_), sender },
                ) => if sender.spec_request() is Some {
                    after.phase == (ServerStreamingPhase::Opening::<T, X> { context })
                } else {
                    over(Err(HandlerError::Fault(Fault::GrpcRequestNotSent)))
                },
                (ServerStreamingPhase::Opening { context }, ServerStreamingEvent::Opened(Ok(_))) =>
                    after.phase == (ServerStreamingPhase::Receiving::<T, X> { context }),
                (ServerStreamingPhase::Opening { .. }, ServerStreamingEvent::Opened(Err(error))) =>
                    over(Err(error)),
                (
                    ServerStreamingPhase::Receiving { context },
                    ServerStreamingEvent::Received(Some(Ok(_))),
                ) => after.phase == (ServerStreamingPhase::Handling::<T, X> { context }),
                (
                    ServerStreamingPhase::Receiving { .. },
                    ServerStreamingEvent::Received(Some(Err(error))),
                ) => over(Err(error)),
                (ServerStreamingPhase::Receiving { .. }, ServerStreamingEvent::Received(None)) =>
                    over(Ok(())),
                (ServerStreamingPhase::Handling { context }, ServerStreamingEvent::Handled(Ok(_))) =>
                    after.phase == (ServerStreamingPhase::Receiving::<T, X> { context }),
                (ServerStreamingPhase::Handling { .. }, ServerStreamingEvent::Handled(Err(error))) =>
                    over(Err(error)),
                _ => after == request && asked.len() == 0,
            }
        }),
{
}

/// A message is handed to the handler as it came, in the context that `begin_request`
/// returned; the request that the handler sent goes out once, as it was sent; and
/// every response is handed to the handler as it came, each before the next is awaited.
pub proof fn law_message_request_and_response_are_kept<T, Req, Res, X>(
    request: ServerStreamingRequest<T, X>,
    event: ServerStreamingEvent<Req, Res, X>,
)
    ensures
        ({
            let asked: Seq<Action<Payload<T>, Req, Res>> = request.next(event).1;
            match (request.phase, event) {
                (ServerStreamingPhase::Beginning { value }, ServerStreamingEvent::Begun(Ok(context))) => {
                    &&& asked.len() == 2
                    &&& asked[0] == Action::<Payload<T>, Req, Res>::Record(Metric::ActiveUp)
                    &&& asked[1] == (Action::<Payload<T>, Req, Res>::ConsumeMessage {
                        context,
                        value,
                    })
                },
                (
                    ServerStreamingPhase::Consuming { context },
                    ServerStreamingEvent::Consumed { result: Ok(_), sender },
                ) => sender.spec_request() matches Some(sent) ==> {
                    &&& asked.len() == 2
                    &&& asked[0] == Action::<Payload<T>, Req, Res>::Record(Metric::CallStarted)
                    &&& asked[1] == (Action::<Payload<T>, Req, Res>::Call {
                        context,
                        request: sent,
                    })
                },
                (ServerStreamingPhase::Opening { .. }, ServerStreamingEvent::Opened(Ok(_))) => asked
                    == one(Action::<Payload<T>, Req, Res>::Receive),
                (
                    ServerStreamingPhase::Receiving { context },
                    ServerStreamingEvent::Received(Some(Ok(response))),
                ) => asked == one(
                    Action::<Payload<T>, Req, Res>::HandleResponse { context, response },
                ),
                (ServerStreamingPhase::Handling { .. }, ServerStreamingEvent::Handled(Ok(_))) =>
                    asked == one(Action::<Payload<T>, Req, Res>::Receive),
                _ => true,
            }
        }),
{
}

/// From `begin_request` on the handler gets one and the same context; a request that ends
/// hands it to `end_request` and then counts by its result: as a message if and only if
/// the result is a success, else as an error. Its call counts as
/// succeeded at the end of the stream, as failed if it could not be opened, and as unknown
/// if it broke off.
pub proof fn law_end_counts_the_result<T, Req, Res, X>(
    request: ServerStreamingRequest<T, X>,
    event: ServerStreamingEvent<Req, Res, X>,
)
    requires
        !(request.phase is Finished),
    ensures
        ({
            let (after, asked): (ServerStreamingRequest<T, X>, Seq<Action<Payload<T>, Req, Res>>) = request.next(
                event,
            );
            let timed = request.timed;
            let own = own_context(request);
            &&& own matches Some(context) ==> {
                &&& under(asked, context)
                &&& own_context(after) matches Some(later) ==> later == context
                &&& own_context(after) is None ==> after.phase is Finished
            }
            &&& match after.phase {
                ServerStreamingPhase::Finished { result: Some(result) } => {
                    let ok = result is Ok;
                    &&& own is Some
                    &&& forall|kind: Kind|
                        #[trigger] tally(asked, kind) == (match kind {
                            Kind::EndRequest => 1nat,
                            Kind::Record(Metric::ActiveDown) => 1nat,
                            Kind::Record(Metric::Duration) if timed => 1nat,
                            Kind::Record(Metric::MessagesTotal) if ok => 1nat,
                            Kind::Record(Metric::RequestError) if !ok => 1nat,
                            Kind::Record(Metric::CallFailed) if request.phase is Opening => 1nat,
                            Kind::Record(Metric::CallSucceeded) if ok => 1nat,
                            Kind::Record(Metric::CallUnknown) if !ok && (request.phase is Receiving
                                || request.phase is Handling) => 1nat,
                            _ => 0nat,
                        })
                },
                ServerStreamingPhase::Finished { result: None } => asked == one(
                    Action::<Payload<T>, Req, Res>::Record(Metric::BeginRequestFailed),
                ),
                _ => tally(asked, Kind::EndRequest) == 0,
            }
        }),
{
    broadcast use {group_tally, group_under};

}

/// The context that the handler gets throughout, once `begin_request` returned it.
pub open spec fn own_context<T, X>(request: ServerStreamingRequest<T, X>) -> Option<MessageContext> {
    match request.phase {
        ServerStreamingPhase::Consuming { context } => Some(context),
        ServerStreamingPhase::Opening { context } => Some(context),
        ServerStreamingPhase::Receiving { context } => Some(context),
        ServerStreamingPhase::Handling { context } => Some(context),
        _ => None,
    }
}

/// Whether an event reports an error.
pub open spec fn reports<Req, Res, X>(
    event: ServerStreamingEvent<Req, Res, X>,
    error: HandlerError<X>,
) -> bool {
    match event {
        ServerStreamingEvent::Consumed { result: Err(e), .. } => e == error,
        ServerStreamingEvent::Opened(Err(e)) => e == error,
        ServerStreamingEvent::Received(Some(Err(e))) => e == error,
        ServerStreamingEvent::Handled(Err(e)) => e == error,
        _ => false,
    }
}

/// Whatever the driver reports, and in whatever order: a request that succeeded was told of
/// the end of its responses,
/// and one that failed was told of just that error, unless its handler sent no request.
pub proof fn law_result_was_reported<T, Req, Res, X>(
    timed: bool,
    value: Payload<T>,
    events: Seq<ServerStreamingEvent<Req, Res, X>>,
)
    ensures
        ({
            let start = ServerStreamingRequest::<T, X> {
                timed,
                phase: ServerStreamingPhase::Beginning { value },
            };
            match run(start, events).0.phase {
                ServerStreamingPhase::Finished { result: Some(Ok(_)) } => exists|i: int|
                    0 <= i < events.len() && (#[trigger] events[i] matches ServerStreamingEvent::Received(None)),
                ServerStreamingPhase::Finished { result: Some(Err(error)) } => {
                    ||| exists|i: int|
                        0 <= i < events.len() && reports(#[trigger] events[i], error)
                    ||| error == HandlerError::<X>::Fault(Fault::GrpcRequestNotSent)
                },
                _ => true,
            }
        }),
    decreases events.len(),
{
    let start = ServerStreamingRequest::<T, X> { timed, phase: ServerStreamingPhase::Beginning { value } };
    if events.len() > 0 {
        let front = events.drop_last();
        law_result_was_reported::<T, Req, Res, X>(timed, value, front);
        let before = run(start, front).0;
        assert(events[events.len() - 1] == events.last());
        match before.phase {
            ServerStreamingPhase::Finished { result: Some(Ok(_)) } => {
                let i = choose|i: int|
                    0 <= i < front.len() && (#[trigger] front[i] matches ServerStreamingEvent::Received(None));
                assert(events[i] == front[i]);
            },
            ServerStreamingPhase::Finished { result: Some(Err(error)) } => {
                if exists|i: int| 0 <= i < front.len() && reports(#[trigger] front[i], error) {
                    let i = choose|i: int|
                        0 <= i < front.len() && reports(#[trigger] front[i], error);
                    assert(events[i] == front[i]);
                }
            },
            _ => {
                match run(start, events).0.phase {
                    ServerStreamingPhase::Finished { result: Some(Err(error)) } => {
                        assert(reports(events[events.len() - 1], error) || error == HandlerError::<
                            X,
                        >::Fault(Fault::GrpcRequestNotSent));
                    },
                    _ => {},
                }
            },
        }
    }
}

/// The call is counted first, if it was made; then `end_request` runs, and only then the
/// request is no longer active and counts by its result, last of all.
pub proof fn law_end_request_comes_before_the_counts<T, Req, Res, X>(
    request: ServerStreamingRequest<T, X>,
    event: ServerStreamingEvent<Req, Res, X>,
)
    requires
        !(request.phase is Finished),
    ensures
        ({
            let (after, asked): (ServerStreamingRequest<T, X>, Seq<Action<Payload<T>, Req, Res>>) = request.next(
                event,
            );
            after.phase matches ServerStreamingPhase::Finished { result: Some(result) } ==> {
                let called = !(request.phase is Consuming);
                let at = if called {
                    1int
                } else {
                    0
                };
                &&& called ==> asked[0] == Action::<Payload<T>, Req, Res>::Record(
                    if result is Ok {
                    Metric::CallSucceeded
                } else if request.phase is Opening {
                    Metric::CallFailed
                } else {
                    Metric::CallUnknown
                },
                )
                &&& asked[at] == (Action::<Payload<T>, Req, Res>::EndRequest {
                    context: own_context(request)->0,
                })
                &&& asked[at + 1] == Action::<Payload<T>, Req, Res>::Record(Metric::ActiveDown)
                &&& asked.last() == Action::<Payload<T>, Req, Res>::Record(
                    if result is Ok {
                        Metric::MessagesTotal
                    } else {
                        Metric::RequestError
                    },
                )
            }
        }),
{
    reveal(request_end);
}

} // verus!
