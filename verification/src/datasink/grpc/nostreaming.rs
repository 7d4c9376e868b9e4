//! gRPC sinks that send one request and get one response.
use vstd::prelude::*;

use crate::datasink::grpc::endpoint::{
    is_sink_metrics, sink_metrics_error, EndpointMetrics, RequestSender,
};
use crate::operators::sink::SinkStreamWithResult;
use crate::runtime::common::{MessageContext, Payload};
use crate::runtime::environment::RuntimeEnvironment;
use crate::runtime::error::{Fault, HandlerError, HandlerResult, RuntimeResult};
use crate::runtime::request::{
    group_tally, group_under, one, push_request_end, request_end, succeeded, tally, two, under,
    Action, Kind, Metric,
};

verus! {

/// How far a request has come.
pub enum NoStreamingPhase<T, X> {
    /// `begin_request` is running.
    Beginning { value: Payload<T> },
    /// `consume_message` is running.
    Consuming { context: MessageContext },
    /// The call is under way.
    Calling { context: MessageContext },
    /// `handle_response` is running.
    Handling { context: MessageContext },
    /// Over. There is no result where `begin_request` failed.
    Finished { result: Option<HandlerResult<(), X>> },
}

/// What the driver reports.
pub enum NoStreamingEvent<Req, Res, X> {
    /// `begin_request` returned, with the context to go on with.
    Begun(HandlerResult<MessageContext, X>),
    /// `consume_message` returned; `sender` holds what it sent.
    Consumed { result: HandlerResult<(), X>, sender: RequestSender<Req> },
    /// The call came back.
    Called(HandlerResult<Res, X>),
    /// `handle_response` returned.
    Handled(HandlerResult<(), X>),
}

/// One request of a gRPC sink without streaming.
pub struct NoStreamingRequest<T, X> {
    pub timed: bool,
    pub phase: NoStreamingPhase<T, X>,
}

/// The end of a request: `end_request` runs, then the metrics are updated.
pub open spec fn finish<T, Req, Res, X>(
    timed: bool,
    context: MessageContext,
    result: HandlerResult<(), X>,
) -> (NoStreamingRequest<T, X>, Seq<Action<Payload<T>, Req, Res>>) {
    (
        NoStreamingRequest { timed, phase: NoStreamingPhase::Finished { result: Some(result) } },
        one(Action::EndRequest { context }) + request_end(timed, result is Ok),
    )
}

impl<T, X> NoStreamingRequest<T, X> {
    /// What an event leads to. An event that the phase does not wait for changes
    /// nothing.
    pub open spec fn next<Req, Res>(self, event: NoStreamingEvent<Req, Res, X>) -> (
        NoStreamingRequest<T, X>,
        Seq<Action<Payload<T>, Req, Res>>,
    ) {
        let timed = self.timed;
        match (self.phase, event) {
            (NoStreamingPhase::Beginning { value }, NoStreamingEvent::Begun(Ok(context))) => (
                NoStreamingRequest { timed, phase: NoStreamingPhase::Consuming { context } },
                two(
                    Action::Record(Metric::ActiveUp),
                    Action::ConsumeMessage { context, value },
                ),
            ),
            (NoStreamingPhase::Beginning { .. }, NoStreamingEvent::Begun(Err(_))) => (
                NoStreamingRequest { timed, phase: NoStreamingPhase::Finished { result: None } },
                one(Action::Record(Metric::BeginRequestFailed)),
            ),
            (
                NoStreamingPhase::Consuming { context },
                NoStreamingEvent::Consumed { result: Ok(_), sender },
            ) => match sender.spec_request() {
                Some(request) => (
                    NoStreamingRequest { timed, phase: NoStreamingPhase::Calling { context } },
                    two(Action::Record(Metric::CallStarted), Action::Call { context, request }),
                ),
                None => finish(
                    timed,
                    context,
                    Err(HandlerError::Fault(Fault::GrpcRequestNotSent)),
                ),
            },
            (
                NoStreamingPhase::Consuming { context },
                NoStreamingEvent::Consumed { result: Err(error), .. },
            ) => finish(timed, context, Err(error)),
            (NoStreamingPhase::Calling { context }, NoStreamingEvent::Called(Ok(response))) => (
                NoStreamingRequest { timed, phase: NoStreamingPhase::Handling { context } },
                two(
                    Action::Record(Metric::CallSucceeded),
                    Action::HandleResponse { context, response },
                ),
            ),
            (NoStreamingPhase::Calling { context }, NoStreamingEvent::Called(Err(error))) => {
                let end = finish(timed, context, Err(error));
                (end.0, one(Action::Record(Metric::CallFailed)) + end.1)
            },
            (NoStreamingPhase::Handling { context }, NoStreamingEvent::Handled(result)) => finish(
                timed,
                context,
                result,
            ),
            _ => (self, Seq::empty()),
        }
    }

    fn finish_with<Req, Res>(
        timed: bool,
        context: MessageContext,
        result: HandlerResult<(), X>,
        actions: &mut Vec<Action<Payload<T>, Req, Res>>,
    ) -> (request: NoStreamingRequest<T, X>)
        ensures
            request == finish::<T, Req, Res, X>(timed, context, result).0,
            final(actions)@ == old(actions)@ + finish::<T, Req, Res, X>(
                timed,
                context,
                result,
            ).1,
    {
        let ok: bool = succeeded(&result);
        actions.push(Action::EndRequest { context });
        push_request_end(actions, timed, ok);
        assert(actions@ =~= old(actions)@ + finish::<T, Req, Res, X>(timed, context, result).1);
        NoStreamingRequest { timed, phase: NoStreamingPhase::Finished { result: Some(result) } }
    }

    /// Takes the next event and says what the driver has to do.
    pub fn step<Req, Res>(self, event: NoStreamingEvent<Req, Res, X>) -> (outcome: (
        NoStreamingRequest<T, X>,
        Vec<Action<Payload<T>, Req, Res>>,
    ))
        ensures
            outcome.0 == self.next(event).0,
            outcome.1@ == self.next(event).1,
    {
        let ghost start = self;
        let ghost given = event;
        let timed: bool = self.timed;
        let mut actions: Vec<Action<Payload<T>, Req, Res>> = Vec::new();
        let request = match (self.phase, event) {
            (NoStreamingPhase::Beginning { value }, NoStreamingEvent::Begun(Ok(context))) => {
                actions.push(Action::Record(Metric::ActiveUp));
                actions.push(Action::ConsumeMessage { context: context.clone(), value });
                NoStreamingRequest { timed, phase: NoStreamingPhase::Consuming { context } }
            },
            (NoStreamingPhase::Beginning { .. }, NoStreamingEvent::Begun(Err(_))) => {
                actions.push(Action::Record(Metric::BeginRequestFailed));
                NoStreamingRequest { timed, phase: NoStreamingPhase::Finished { result: None } }
            },
            (
                NoStreamingPhase::Consuming { context },
                NoStreamingEvent::Consumed { result: Ok(_), sender },
            ) => {
                let mut sender = sender;
                match sender.take() {
                    Ok(request) => {
                        actions.push(Action::Record(Metric::CallStarted));
                        actions.push(Action::Call { context: context.clone(), request });
                        NoStreamingRequest { timed, phase: NoStreamingPhase::Calling { context } }
                    },
                    Err(error) => Self::finish_with(timed, context, Err(error), &mut actions),
                }
            },
            (
                NoStreamingPhase::Consuming { context },
                NoStreamingEvent::Consumed { result: Err(error), .. },
            ) => Self::finish_with(timed, context, Err(error), &mut actions),
            (NoStreamingPhase::Calling { context }, NoStreamingEvent::Called(Ok(response))) => {
                actions.push(Action::Record(Metric::CallSucceeded));
                actions.push(Action::HandleResponse { context: context.clone(), response });
                NoStreamingRequest { timed, phase: NoStreamingPhase::Handling { context } }
            },
            (NoStreamingPhase::Calling { context }, NoStreamingEvent::Called(Err(error))) => {
                actions.push(Action::Record(Metric::CallFailed));
                Self::finish_with(timed, context, Err(error), &mut actions)
            },
            (NoStreamingPhase::Handling { context }, NoStreamingEvent::Handled(result)) => {
                Self::finish_with(timed, context, result, &mut actions)
            },
            (phase, _) => NoStreamingRequest { timed, phase },
        };
        assert(actions@ =~= start.next(given).1);
        (request, actions)
    }

    /// The result that `end_request` gets, once the request is over.
    pub fn result(&self) -> (result: Option<&HandlerResult<(), X>>)
        ensures
            match result {
                Some(r) => self.phase == (NoStreamingPhase::Finished::<T, X> { result: Some(*r) }),
                None => !(self.phase matches NoStreamingPhase::Finished { result: Some(_) }),
            },
    {
        match &self.phase {
            NoStreamingPhase::Finished { result } => result.as_ref(),
            _ => None,
        }
    }
}

/// The consumer of a gRPC sink without streaming.
pub struct NoStreamingEndpointConsumer {
    pub metrics: EndpointMetrics,
}

impl NoStreamingEndpointConsumer {
    /// Opens a request for a message: `begin_request` runs first.
    pub fn consume<T, Req, Res, X>(&self, context: MessageContext, value: Payload<T>) -> (opened: (
        NoStreamingRequest<T, X>,
        Vec<Action<Payload<T>, Req, Res>>,
    ))
        ensures
            opened.0 == (NoStreamingRequest::<T, X> {
                timed: self.metrics.enabled,
                phase: NoStreamingPhase::Beginning { value },
            }),
            opened.1@ == one(Action::<Payload<T>, Req, Res>::BeginRequest { context }),
    {
        let mut actions: Vec<Action<Payload<T>, Req, Res>> = Vec::new();
        actions.push(Action::BeginRequest { context });
        assert(actions@ =~= one(Action::<Payload<T>, Req, Res>::BeginRequest { context }));
        (
            NoStreamingRequest {
                timed: self.metrics.enabled,
                phase: NoStreamingPhase::Beginning { value },
            },
            actions,
        )
    }
}

/// Makes the consumer for the endpoint of `stream` and installs it there, once its
/// instruments are set up: `instruments` is what that came to.
pub fn make_grpc_no_streaming_endpoint_consumer<T, R, E>(
    stream: &mut SinkStreamWithResult<T, R, E, NoStreamingEndpointConsumer>,
    environment: &RuntimeEnvironment,
    instruments: RuntimeResult<()>,
) -> (result: RuntimeResult<()>)
    requires
        old(stream).spec_result_stream().belongs(environment@),
    ensures
        final(stream).spec_result_stream() == old(stream).spec_result_stream(),
        final(stream).spec_error_stream() == old(stream).spec_error_stream(),
        ({
            let id = old(stream).spec_result_stream().spec_id();
            let name = environment@.nodes[old(stream).spec_result_stream().spec_node()].name;
            let failure = sink_metrics_error(environment@.config, id, name, instruments);
            match result {
                Ok(_) => {
                    &&& failure is None
                    &&& final(stream).spec_consumer() is Some
                    &&& is_sink_metrics(
                        final(stream).spec_consumer()->0.metrics,
                        environment@,
                        id,
                    )
                },
                Err(error) => {
                    &&& failure == Some(error@)
                    &&& final(stream).spec_consumer() == old(stream).spec_consumer()
                },
            }
        }),
{
    match EndpointMetrics::new(stream, environment, instruments) {
        Ok(metrics) => stream.set_sink_consumer(NoStreamingEndpointConsumer { metrics }),
        Err(error) => Err(error),
    }
}

/// Where a request stands after some events, and all it asked for on the way.
pub open spec fn run<T, Req, Res, X>(
    request: NoStreamingRequest<T, X>,
    events: Seq<NoStreamingEvent<Req, Res, X>>,
) -> (NoStreamingRequest<T, X>, Seq<Action<Payload<T>, Req, Res>>)
    decreases events.len(),
{
    if events.len() == 0 {
        (request, Seq::empty())
    } else {
        let before = run(request, events.drop_last());
        let after = before.0.next(events.last());
        (after.0, before.1 + after.1)
    }
}

/// What a request has asked for by the time it stands where it stands.
pub open spec fn accounted<T, Req, Res, X>(
    request: NoStreamingRequest<T, X>,
    actions: Seq<Action<Payload<T>, Req, Res>>,
) -> bool {
    let begun = !(request.phase is Beginning) && request.phase
        != (NoStreamingPhase::Finished::<T, X> { result: None });
    let over = request.phase matches NoStreamingPhase::Finished { result: Some(_) };
    let ok = request.phase matches NoStreamingPhase::Finished { result: Some(Ok(_)) };
    &&& tally(actions, Kind::ConsumeMessage) == (if begun { 1nat } else { 0 })
    &&& tally(actions, Kind::Record(Metric::ActiveUp)) == (if begun { 1nat } else { 0 })
    &&& tally(actions, Kind::EndRequest) == (if over { 1nat } else { 0 })
    &&& tally(actions, Kind::Record(Metric::ActiveDown)) == (if over { 1nat } else { 0 })
    &&& tally(actions, Kind::Record(Metric::MessagesTotal)) == (if ok { 1nat } else { 0 })
    &&& tally(actions, Kind::Record(Metric::RequestError)) == (if over && !ok {
        1nat
    } else {
        0
    })
    &&& tally(actions, Kind::Record(Metric::BeginRequestFailed)) == (if request.phase
        == (NoStreamingPhase::Finished::<T, X> { result: None }) {
        1nat
    } else {
        0
    })
    &&& tally(actions, Kind::BeginRequest) == 0
    &&& tally(actions, Kind::Call) <= 1
    &&& tally(actions, Kind::HandleResponse) <= tally(actions, Kind::Call)
    &&& request.phase is Calling ==> tally(actions, Kind::Call) == 1
    &&& request.phase is Handling ==> tally(actions, Kind::HandleResponse) == 1
    &&& request.phase is Consuming || request.phase is Beginning ==> tally(
        actions,
        Kind::Call,
    ) == 0
    &&& request.phase is Calling ==> tally(actions, Kind::HandleResponse) == 0
    &&& ok ==> tally(actions, Kind::HandleResponse) == 1
}

proof fn lemma_step_accounted<T, Req, Res, X>(
    request: NoStreamingRequest<T, X>,
    actions: Seq<Action<Payload<T>, Req, Res>>,
    event: NoStreamingEvent<Req, Res, X>,
)
    requires
        accounted(request, actions),
    ensures
        accounted(request.next(event).0, actions + request.next(event).1),
{
    broadcast use group_tally;

}

/// Whatever the driver reports, and in whatever order: a request that began is
/// consumed once, ended at most once and ended exactly once when it is over; it is
/// active from its beginning to its end; at its end it counts once, as a message
/// when its result is a success and as an error otherwise. A request that did not
/// begin is none of these. At most one call is made and at most one response
/// handled, and a success means that both happened.
pub proof fn law_request_accounting<T, Req, Res, X>(
    timed: bool,
    value: Payload<T>,
    events: Seq<NoStreamingEvent<Req, Res, X>>,
)
    ensures
        ({
            let start = NoStreamingRequest::<T, X> {
                timed,
                phase: NoStreamingPhase::Beginning { value },
            };
            accounted(run(start, events).0, run(start, events).1)
        }),
    decreases events.len(),
{
    let start = NoStreamingRequest::<T, X> { timed, phase: NoStreamingPhase::Beginning { value } };
    if events.len() == 0 {
        broadcast use group_tally;

    } else {
        law_request_accounting::<T, Req, Res, X>(timed, value, events.drop_last());
        let before = run(start, events.drop_last());
        lemma_step_accounted(before.0, before.1, events.last());
    }
}

/// The result of a request is what ended it, as it was reported: the error of
/// `consume_message`, of the call or of a response, what handling a response came to,
/// or the fault of a handler that sent no request. Nothing else ends a request, and an
/// event that it does not wait for changes nothing.
pub proof fn law_result_is_what_ended_the_request<T, Req, Res, X>(
    request: NoStreamingRequest<T, X>,
    event: NoStreamingEvent<Req, Res, X>,
)
    ensures
        ({
            let (after, asked): (NoStreamingRequest<T, X>, Seq<Action<Payload<T>, Req, Res>>) = request.next(
                event,
            );
            let over = |result: HandlerResult<(), X>|
                after.phase == (NoStreamingPhase::Finished::<T, X> { result: Some(result) });
            &&& after.timed == request.timed
            &&& match (request.phase, event) {
                (NoStreamingPhase::Beginning { .. }, NoStreamingEvent::Begun(Ok(context))) => after.phase
                    == (NoStreamingPhase::Consuming::<T, X> { context }),
                (NoStreamingPhase::Beginning { .. }, NoStreamingEvent::Begun(Err(_))) => after.phase
                    == (NoStreamingPhase::Finished::<T, X> { result: None }),
                (
                    NoStreamingPhase::Consuming { .. },
                    NoStreamingEvent::Consumed { result: Err(error), .. },
                ) => over(Err(error)),
                (
                    NoStreamingPhase::Consuming { context },
                    NoStreamingEvent::Consumed { result: Ok(_), sender },
                ) => if sender.spec_request() is Some {
                    after.phase == (NoStreamingPhase::Calling::<T, X> { context })
                } else {
                    over(Err(HandlerError::Fault(Fault::GrpcRequestNotSent)))
                },
                (NoStreamingPhase::Calling { context }, NoStreamingEvent::Called(Ok(_))) =>
                    after.phase == (NoStreamingPhase::Handling::<T, X> { context }),
                (NoStreamingPhase::Calling { .. }, NoStreamingEvent::Called(Err(error))) => over(
                    Err(error),
                ),
                (NoStreamingPhase::Handling { .. }, NoStreamingEvent::Handled(result)) => over(
                    result,
                ),
                _ => after == request && asked.len() == 0,
            }
        }),
{
}

/// A message is handed to the handler as it came, in the context that `begin_request`
/// returned; the request that the handler sent goes out once, as it was sent; and
/// the response is handed to the handler as it came.
pub proof fn law_message_request_and_response_are_kept<T, Req, Res, X>(
    request: NoStreamingRequest<T, X>,
    event: NoStreamingEvent<Req, Res, X>,
)
    ensures
        ({
            let asked: Seq<Action<Payload<T>, Req, Res>> = request.next(event).1;
            match (request.phase, event) {
                (NoStreamingPhase::Beginning { value }, NoStreamingEvent::Begun(Ok(context))) => {
                    &&& asked.len() == 2
                    &&& asked[0] == Action::<Payload<T>, Req, Res>::Record(Metric::ActiveUp)
                    &&& asked[1] == (Action::<Payload<T>, Req, Res>::ConsumeMessage {
                        context,
                        value,
                    })
                },
                (
                    NoStreamingPhase::Consuming { context },
                    NoStreamingEvent::Consumed { result: Ok(_), sender },
                ) => sender.spec_request() matches Some(sent) ==> {
                    &&& asked.len() == 2
                    &&& asked[0] == Action::<Payload<T>, Req, Res>::Record(Metric::CallStarted)
                    &&& asked[1] == (Action::<Payload<T>, Req, Res>::Call {
                        context,
                        request: sent,
                    })
                },
                (NoStreamingPhase::Calling { context }, NoStreamingEvent::Called(Ok(response))) => {
                    &&& asked.len() == 2
                    &&& asked[0] == Action::<Payload<T>, Req, Res>::Record(Metric::CallSucceeded)
                    &&& asked[1] == (Action::<Payload<T>, Req, Res>::HandleResponse {
                        context,
                        response,
                    })
                },
                _ => true,
            }
        }),
{
}

/// From `begin_request` on the handler gets one and the same context; a request that ends
/// hands it to `end_request` and then counts by its result: as a message if and only if
/// the result is a success, else as an error. Its call counts as failed if it did.
pub proof fn law_end_counts_the_result<T, Req, Res, X>(
    request: NoStreamingRequest<T, X>,
    event: NoStreamingEvent<Req, Res, X>,
)
    requires
        !(request.phase is Finished),
    ensures
        ({
            let (after, asked): (NoStreamingRequest<T, X>, Seq<Action<Payload<T>, Req, Res>>) = request.next(
                event,
            );
            let timed = request.timed;
            let own = own_context(request);
            &&& own matches Some(context) ==> {
                &&& under(asked, context)
                &&& own_context(after) matches Some(later) ==> later == context
                &&& own_context(after) is None ==> after.phase is Finished
            }
            &&& match after.phase {
                NoStreamingPhase::Finished { result: Some(result) } => {
                    let ok = result is Ok;
                    &&& own is Some
                    &&& forall|kind: Kind|
                        #[trigger] tally(asked, kind) == (match kind {
                            Kind::EndRequest => 1nat,
                            Kind::Record(Metric::ActiveDown) => 1nat,
                            Kind::Record(Metric::Duration) if timed => 1nat,
                            Kind::Record(Metric::MessagesTotal) if ok => 1nat,
                            Kind::Record(Metric::RequestError) if !ok => 1nat,
                            Kind::Record(Metric::CallFailed) if request.phase is Calling => 1nat,
                            _ => 0nat,
                        })
                },
                NoStreamingPhase::Finished { result: None } => asked == one(
                    Action::<Payload<T>, Req, Res>::Record(Metric::BeginRequestFailed),
                ),
                _ => tally(asked, Kind::EndRequest) == 0,
            }
        }),
{
    broadcast use {group_tally, group_under};

}

/// The context that the handler gets throughout, once `begin_request` returned it.
pub open spec fn own_context<T, X>(request: NoStreamingRequest<T, X>) -> Option<MessageContext> {
    match request.phase {
        NoStreamingPhase::Consuming { context } => Some(context),
        NoStreamingPhase::Calling { context } => Some(context),
        NoStreamingPhase::Handling { context } => Some(context),
        _ => None,
    }
}

/// Whether an event reports an error.
pub open spec fn reports<Req, Res, X>(
    event: NoStreamingEvent<Req, Res, X>,
    error: HandlerError<X>,
) -> bool {
    match event {
        NoStreamingEvent::Consumed { result: Err(e), .. } => e == error,
        NoStreamingEvent::Called(Err(e)) => e == error,
        NoStreamingEvent::Handled(Err(e)) => e == error,
        _ => false,
    }
}

/// Whatever the driver reports, and in whatever order: a request that succeeded had its
/// response handled with success,
/// and one that failed was told of just that error, unless its handler sent no request.
pub proof fn law_result_was_reported<T, Req, Res, X>(
    timed: bool,
    value: Payload<T>,
    events: Seq<NoStreamingEvent<Req, Res, X>>,
)
    ensures
        ({
            let start = NoStreamingRequest::<T, X> {
                timed,
                phase: NoStreamingPhase::Beginning { value },
            };
            match run(start, events).0.phase {
                NoStreamingPhase::Finished { result: Some(Ok(_)) } => exists|i: int|
                    0 <= i < events.len() && (#[trigger] events[i] matches NoStreamingEvent::Handled(Ok(_))),
                NoStreamingPhase::Finished { result: Some(Err(error)) } => {
                    ||| exists|i: int|
                        0 <= i < events.len() && reports(#[trigger] events[i], error)
                    ||| error == HandlerError::<X>::Fault(Fault::GrpcRequestNotSent)
                },
                _ => true,
            }
        }),
    decreases events.len(),
{
    let start = NoStreamingRequest::<T, X> { timed, phase: NoStreamingPhase::Beginning { value } };
    if events.len() > 0 {
        let front = events.drop_last();
        law_result_was_reported::<T, Req, Res, X>(timed, value, front);
        let before = run(start, front).0;
        assert(events[events.len() - 1] == events.last());
        match before.phase {
            NoStreamingPhase::Finished { result: Some(Ok(_)) } => {
                let i = choose|i: int|
                    0 <= i < front.len() && (#[trigger] front[i] matches NoStreamingEvent::Handled(Ok(_)));
                assert(events[i] == front[i]);
            },
            NoStreamingPhase::Finished { result: Some(Err(error)) } => {
                if exists|i: int| 0 <= i < front.len() && reports(#[trigger] front[i], error) {
                    let i = choose|i: int|
                        0 <= i < front.len() && reports(#[trigger] front[i], error);
                    assert(events[i] == front[i]);
                }
            },
            _ => {
                match run(start, events).0.phase {
                    NoStreamingPhase::Finished { result: Some(Err(error)) } => {
                        assert(reports(events[events.len() - 1], error) || error == HandlerError::<
                            X,
                        >::Fault(Fault::GrpcRequestNotSent));
                    },
                    _ => {},
                }
            },
        }
    }
}

/// The call is counted first, if it was made; then `end_request` runs, and only then the
/// request is no longer active and counts by its result, last of all.
pub proof fn law_end_request_comes_before_the_counts<T, Req, Res, X>(
    request: NoStreamingRequest<T, X>,
    event: NoStreamingEvent<Req, Res, X>,
)
    requires
        !(request.phase is Finished),
    ensures
        ({
            let (after, asked): (NoStreamingRequest<T, X>, Seq<Action<Payload<T>, Req, Res>>) = request.next(
                event,
            );
            after.phase matches NoStreamingPhase::Finished { result: Some(result) } ==> {
                let called = request.phase is Calling;
                let at = if called {
                    1int
                } else {
                    0
                };
                &&& called ==> asked[0] == Action::<Payload<T>, Req, Res>::Record(
                    Metric::CallFailed,
                )
                &&& asked[at] == (Action::<Payload<T>, Req, Res>::EndRequest {
                    context: own_context(request)->0,
                })
                &&& asked[at + 1] == Action::<Payload<T>, Req, Res>::Record(Metric::ActiveDown)
                &&& asked.last() == Action::<Payload<T>, Req, Res>::Record(
                    if result is Ok {
                        Metric::MessagesTotal
                    } else {
                        Metric::RequestError
                    },
                )
            }
        }),
{
    reveal(request_end);
}

} // verus!
