//! gRPC sinks that send a stream of requests and get one response.
use vstd::prelude::*;

use crate::datasink::grpc::endpoint::{is_sink_metrics, sink_metrics_error, EndpointMetrics};
use crate::datasink::grpc::session::{
    group_session, law_call_goes_out_under_its_own_id, law_session_end_is_in_order,
    lemma_session_end_order, push_session_call, push_session_end, route_message, routed,
    session_call, session_end, Route,
};
use crate::operators::sink::SinkStreamWithResult;
use crate::runtime::common::{MessageContext, Payload};
use crate::runtime::environment::RuntimeEnvironment;
use crate::runtime::error::{Fault, HandlerError, HandlerResult, RuntimeResult};
use crate::runtime::request::{
    follows, follows_empty, group_tally, group_under, lemma_follows_add, lemma_front_contains, one,
    succeeded, tally, two, under, Action, Kind, Metric,
};
use crate::runtime::store::PendingTable;

verus! {

/// How far the session of a stream has come. `running` counts the messages whose
/// `consume_message` is running.
pub enum ClientStreamingPhase<Res, X> {
    /// `begin_request` is running.
    Beginning,
    /// The call is being opened.
    Opening { context: MessageContext },
    /// Messages are let in.
    Open { context: MessageContext, running: u64 },
    /// Done: no more messages are let in and the response is awaited or, once it is
    /// here, the running messages.
    Closing { context: MessageContext, running: u64, response: Option<HandlerResult<Res, X>> },
    /// Cancelled: no more messages are let in and the running ones are awaited.
    Cancelled { context: MessageContext, running: u64 },
    /// `handle_response` is running.
    Handling { context: MessageContext },
    /// Over. `opened` tells whether messages were ever let in; there is no result
    /// where `begin_request` failed.
    Finished { opened: bool, result: Option<HandlerResult<(), X>> },
}

/// What the driver reports.
pub enum ClientStreamingEvent<T, Res, X> {
    /// `begin_request` returned the context to go on with. The call goes out under
    /// the fresh stream id `call_id`.
    Begun { result: HandlerResult<MessageContext, X>, call_id: String },
    /// The call was opened, or not.
    Opened(HandlerResult<(), X>),
    /// A message came for the session.
    Arrived(Payload<T>),
    /// `consume_message` returned for one message.
    Consumed(HandlerResult<(), X>),
    /// A handler called `done` on the session's result context.
    Done,
    /// The context of the session was cancelled.
    Cancelled,
    /// The peer closed the call with its response.
    Received(HandlerResult<Res, X>),
    /// `handle_response` returned.
    Handled(HandlerResult<(), X>),
}

/// The session of one stream.
pub struct ClientStreamingSession<Res, X> {
    pub timed: bool,
    pub phase: ClientStreamingPhase<Res, X>,
}

/// The session is over with `result`.
pub open spec fn finish<T, Res, X>(
    timed: bool,
    context: MessageContext,
    opened: bool,
    result: HandlerResult<(), X>,
) -> (ClientStreamingSession<Res, X>, Seq<Action<Payload<T>, (), Res>>) {
    (
        ClientStreamingSession {
            timed,
            phase: ClientStreamingPhase::Finished { opened, result: Some(result) },
        },
        session_end(timed, context, result is Ok),
    )
}

/// Once nothing runs any more, the response is handled, or its error ends the
/// session.
pub open spec fn settle<T, Res, X>(
    timed: bool,
    context: MessageContext,
    running: u64,
    response: Option<HandlerResult<Res, X>>,
) -> (ClientStreamingSession<Res, X>, Seq<Action<Payload<T>, (), Res>>) {
    match response {
        Some(Ok(value)) if running == 0 => (
            ClientStreamingSession { timed, phase: ClientStreamingPhase::Handling { context } },
            one(Action::HandleResponse { context, response: value }),
        ),
        Some(Err(error)) if running == 0 => finish(timed, context, true, Err(error)),
        _ => (
            ClientStreamingSession {
                timed,
                phase: ClientStreamingPhase::Closing { context, running, response },
            },
            Seq::empty(),
        ),
    }
}

/// A cancelled session ends once nothing runs any more.
pub open spec fn settle_cancelled<T, Res, X>(
    timed: bool,
    context: MessageContext,
    running: u64,
) -> (ClientStreamingSession<Res, X>, Seq<Action<Payload<T>, (), Res>>) {
    if running == 0 {
        finish(
            timed,
            context,
            true,
            Err(HandlerError::Fault(Fault::GrpcClientStreamCancelled)),
        )
    } else {
        (
            ClientStreamingSession {
                timed,
                phase: ClientStreamingPhase::Cancelled { context, running },
            },
            Seq::empty(),
        )
    }
}

impl<Res, X> ClientStreamingSession<Res, X> {
    /// How many messages are being consumed.
    pub open spec fn running(self) -> u64 {
        match self.phase {
            ClientStreamingPhase::Open { running, .. } => running,
            ClientStreamingPhase::Closing { running, .. } => running,
            ClientStreamingPhase::Cancelled { running, .. } => running,
            _ => 0,
        }
    }

    /// What an event leads to. An event that the phase does not wait for changes
    /// nothing.
    pub open spec fn next<T>(self, event: ClientStreamingEvent<T, Res, X>) -> (
        ClientStreamingSession<Res, X>,
        Seq<Action<Payload<T>, (), Res>>,
    ) {
        let timed = self.timed;
        match (self.phase, event) {
            (
                ClientStreamingPhase::Beginning,
                ClientStreamingEvent::Begun { result: Ok(context), call_id },
            ) => (
                ClientStreamingSession { timed, phase: ClientStreamingPhase::Opening { context } },
                session_call(timed, context, call_id),
            ),
            (
                ClientStreamingPhase::Beginning,
                ClientStreamingEvent::Begun { result: Err(_), .. },
            ) => (
                ClientStreamingSession {
                    timed,
                    phase: ClientStreamingPhase::Finished { opened: false, result: None },
                },
                two(Action::Record(Metric::BeginRequestFailed), Action::Forget),
            ),
            (ClientStreamingPhase::Opening { context }, ClientStreamingEvent::Opened(Ok(_))) => (
                ClientStreamingSession {
                    timed,
                    phase: ClientStreamingPhase::Open { context, running: 0 },
                },
                Seq::empty(),
            ),
            (
                ClientStreamingPhase::Opening { context },
                ClientStreamingEvent::Opened(Err(error)),
            ) => finish(timed, context, false, Err(error)),
            (ClientStreamingPhase::Beginning, ClientStreamingEvent::Arrived(value)) => (
                self,
                one(Action::Defer { value }),
            ),
            (ClientStreamingPhase::Opening { .. }, ClientStreamingEvent::Arrived(value)) => (
                self,
                one(Action::Defer { value }),
            ),
            (
                ClientStreamingPhase::Open { context, running },
                ClientStreamingEvent::Arrived(value),
            ) => (
                ClientStreamingSession {
                    timed,
                    phase: ClientStreamingPhase::Open { context, running: (running + 1) as u64 },
                },
                one(Action::ConsumeMessage { context, value }),
            ),
            (
                ClientStreamingPhase::Finished { opened: false, .. },
                ClientStreamingEvent::Arrived(_),
            ) => (self, Seq::empty()),
            (_, ClientStreamingEvent::Arrived(_)) => (
                self,
                one(Action::Record(Metric::ClosingRejected)),
            ),
            (
                ClientStreamingPhase::Open { context, running },
                ClientStreamingEvent::Consumed(result),
            ) if running > 0 => {
                let left = (running - 1) as u64;
                if result is Ok {
                    (
                        ClientStreamingSession {
                            timed,
                            phase: ClientStreamingPhase::Open { context, running: left },
                        },
                        Seq::empty(),
                    )
                } else {
                    (
                        ClientStreamingSession {
                            timed,
                            phase: ClientStreamingPhase::Closing {
                                context,
                                running: left,
                                response: None,
                            },
                        },
                        one(Action::CloseAndReceive),
                    )
                }
            },
            (
                ClientStreamingPhase::Closing { context, running, response },
                ClientStreamingEvent::Consumed(_),
            ) if running > 0 => settle(timed, context, (running - 1) as u64, response),
            (
                ClientStreamingPhase::Cancelled { context, running },
                ClientStreamingEvent::Consumed(_),
            ) if running > 0 => settle_cancelled(timed, context, (running - 1) as u64),
            (ClientStreamingPhase::Open { context, running }, ClientStreamingEvent::Done) => (
                ClientStreamingSession {
                    timed,
                    phase: ClientStreamingPhase::Closing { context, running, response: None },
                },
                one(Action::CloseAndReceive),
            ),
            (ClientStreamingPhase::Open { context, running }, ClientStreamingEvent::Cancelled) =>
                settle_cancelled(timed, context, running),
            (
                ClientStreamingPhase::Closing { context, running, response: None },
                ClientStreamingEvent::Received(response),
            ) => settle(timed, context, running, Some(response)),
            (
                ClientStreamingPhase::Handling { context },
                ClientStreamingEvent::Handled(result),
            ) => finish(timed, context, true, result),
            _ => (self, Seq::empty()),
        }
    }

    fn finish_with<T>(
        timed: bool,
        context: MessageContext,
        opened: bool,
        result: HandlerResult<(), X>,
        actions: &mut Vec<Action<Payload<T>, (), Res>>,
    ) -> (session: ClientStreamingSession<Res, X>)
        ensures
            session == finish::<T, Res, X>(timed, context, opened, result).0,
            final(actions)@ == old(actions)@ + finish::<T, Res, X>(
                timed,
                context,
                opened,
                result,
            ).1,
    {
        let ok: bool = succeeded(&result);
        push_session_end(actions, timed, context, ok);
        ClientStreamingSession {
            timed,
            phase: ClientStreamingPhase::Finished { opened, result: Some(result) },
        }
    }

    fn settle_with<T>(
        timed: bool,
        context: MessageContext,
        running: u64,
        response: Option<HandlerResult<Res, X>>,
        actions: &mut Vec<Action<Payload<T>, (), Res>>,
    ) -> (session: ClientStreamingSession<Res, X>)
        ensures
            session == settle::<T, Res, X>(timed, context, running, response).0,
            final(actions)@ == old(actions)@ + settle::<T, Res, X>(
                timed,
                context,
                running,
                response,
            ).1,
    {
        if running > 0 {
            assert(actions@ =~= old(actions)@ + Seq::empty());
            return ClientStreamingSession {
                timed,
                phase: ClientStreamingPhase::Closing { context, running, response },
            };
        }
        match response {
            Some(Ok(value)) => {
                actions.push(Action::HandleResponse { context: context.clone(), response: value });
                assert(actions@ =~= old(actions)@ + one(
                    Action::HandleResponse { context, response: value },
                ));
                ClientStreamingSession { timed, phase: ClientStreamingPhase::Handling { context } }
            },
            Some(Err(error)) => Self::finish_with(timed, context, true, Err(error), actions),
            None => {
                assert(actions@ =~= old(actions)@ + Seq::empty());
                ClientStreamingSession {
                    timed,
                    phase: ClientStreamingPhase::Closing { context, running, response: None },
                }
            },
        }
    }

    fn settle_cancelled_with<T>(
        timed: bool,
        context: MessageContext,
        running: u64,
        actions: &mut Vec<Action<Payload<T>, (), Res>>,
    ) -> (session: ClientStreamingSession<Res, X>)
        ensures
            session == settle_cancelled::<T, Res, X>(timed, context, running).0,
            final(actions)@ == old(actions)@ + settle_cancelled::<T, Res, X>(
                timed,
                context,
                running,
            ).1,
    {
        if running == 0 {
            Self::finish_with(
                timed,
                context,
                true,
                Err(HandlerError::Fault(Fault::GrpcClientStreamCancelled)),
                actions,
            )
        } else {
            assert(actions@ =~= old(actions)@ + Seq::empty());
            ClientStreamingSession {
                timed,
                phase: ClientStreamingPhase::Cancelled { context, running },
            }
        }
    }

    /// Takes the next event and says what the driver has to do.
    pub fn step<T>(self, event: ClientStreamingEvent<T, Res, X>) -> (outcome: (
        ClientStreamingSession<Res, X>,
        Vec<Action<Payload<T>, (), Res>>,
    ))
        requires
            self.running() < u64::MAX,
        ensures
            outcome.0 == self.next(event).0,
            outcome.1@ == self.next(event).1,
    {
        let ghost start = self;
        let ghost given = event;
        let timed: bool = self.timed;
        let mut actions: Vec<Action<Payload<T>, (), Res>> = Vec::new();
        let session = match (self.phase, event) {
            (
                ClientStreamingPhase::Beginning,
                ClientStreamingEvent::Begun { result: Ok(context), call_id },
            ) => {
                push_session_call(&mut actions, timed, context.clone(), call_id);
                ClientStreamingSession { timed, phase: ClientStreamingPhase::Opening { context } }
            },
            (
                ClientStreamingPhase::Beginning,
                ClientStreamingEvent::Begun { result: Err(_), .. },
            ) => {
                actions.push(Action::Record(Metric::BeginRequestFailed));
                actions.push(Action::Forget);
                ClientStreamingSession {
                    timed,
                    phase: ClientStreamingPhase::Finished { opened: false, result: None },
                }
            },
            (ClientStreamingPhase::Opening { context }, ClientStreamingEvent::Opened(Ok(_))) => {
                ClientStreamingSession {
                    timed,
                    phase: ClientStreamingPhase::Open { context, running: 0 },
                }
            },
            (
                ClientStreamingPhase::Opening { context },
                ClientStreamingEvent::Opened(Err(error)),
            ) => Self::finish_with(timed, context, false, Err(error), &mut actions),
            (ClientStreamingPhase::Beginning, ClientStreamingEvent::Arrived(value)) => {
                actions.push(Action::Defer { value });
                ClientStreamingSession { timed, phase: ClientStreamingPhase::Beginning }
            },
            (ClientStreamingPhase::Opening { context }, ClientStreamingEvent::Arrived(value)) => {
                actions.push(Action::Defer { value });
                ClientStreamingSession { timed, phase: ClientStreamingPhase::Opening { context } }
            },
            (
                ClientStreamingPhase::Open { context, running },
                ClientStreamingEvent::Arrived(value),
            ) => {
                actions.push(Action::ConsumeMessage { context: context.clone(), value });
                ClientStreamingSession {
                    timed,
                    phase: ClientStreamingPhase::Open { context, running: running + 1 },
                }
            },
            (
                ClientStreamingPhase::Finished { opened: false, result },
                ClientStreamingEvent::Arrived(_),
            ) => ClientStreamingSession {
                timed,
                phase: ClientStreamingPhase::Finished { opened: false, result },
            },
            (phase, ClientStreamingEvent::Arrived(_)) => {
                actions.push(Action::Record(Metric::ClosingRejected));
                ClientStreamingSession { timed, phase }
            },
            (
                ClientStreamingPhase::Open { context, running },
                ClientStreamingEvent::Consumed(result),
            ) if running > 0 => {
                if succeeded(&result) {
                    ClientStreamingSession {
                        timed,
                        phase: ClientStreamingPhase::Open { context, running: running - 1 },
                    }
                } else {
                    actions.push(Action::CloseAndReceive);
                    ClientStreamingSession {
                        timed,
                        phase: ClientStreamingPhase::Closing {
                            context,
                            running: running - 1,
                            response: None,
                        },
                    }
                }
            },
            (
                ClientStreamingPhase::Closing { context, running, response },
                ClientStreamingEvent::Consumed(_),
            ) if running > 0 => Self::settle_with(
                timed,
                context,
                running - 1,
                response,
                &mut actions,
            ),
            (
                ClientStreamingPhase::Cancelled { context, running },
                ClientStreamingEvent::Consumed(_),
            ) if running > 0 => Self::settle_cancelled_with(
                timed,
                context,
                running - 1,
                &mut actions,
            ),
            (ClientStreamingPhase::Open { context, running }, ClientStreamingEvent::Done) => {
                actions.push(Action::CloseAndReceive);
                ClientStreamingSession {
                    timed,
                    phase: ClientStreamingPhase::Closing { context, running, response: None },
                }
            },
            (ClientStreamingPhase::Open { context, running }, ClientStreamingEvent::Cancelled) =>
                Self::settle_cancelled_with(timed, context, running, &mut actions),
            (
                ClientStreamingPhase::Closing { context, running, response: None },
                ClientStreamingEvent::Received(response),
            ) => Self::settle_with(timed, context, running, Some(response), &mut actions),
            (
                ClientStreamingPhase::Handling { context },
                ClientStreamingEvent::Handled(result),
            ) => Self::finish_with(timed, context, true, result, &mut actions),
            (phase, _) => ClientStreamingSession { timed, phase },
        };
        assert(actions@ =~= start.next(given).1);
        (session, actions)
    }
}

/// The consumer of a gRPC sink with a stream of requests.
pub struct ClientStreamingEndpointConsumer {
    pub metrics: EndpointMetrics,
    pub pending: PendingTable,
}

impl ClientStreamingEndpointConsumer {
    /// Finds the session of a message. A session that starts with the message has
    /// `begin_request` run first; the message itself is then reported to the
    /// session, as it is to one that was there already.
    pub fn consume<T, Res, X>(&mut self, context: MessageContext, fresh: String) -> (opened: (
        Route,
        Option<(ClientStreamingSession<Res, X>, Vec<Action<Payload<T>, (), Res>>)>,
    ))
        requires
            old(self).pending.wf(),
            old(self).pending.spec_next() < u64::MAX,
        ensures
            final(self).metrics == old(self).metrics,
            routed(old(self).pending, final(self).pending, context, fresh, opened.0),
            match opened.1 {
                Some((session, actions)) => {
                    &&& opened.0.created
                    &&& session == (ClientStreamingSession::<Res, X> {
                        timed: old(self).metrics.enabled,
                        phase: ClientStreamingPhase::Beginning,
                    })
                    &&& actions@ == one(
                        Action::<Payload<T>, (), Res>::BeginRequest { context: opened.0.context },
                    )
                },
                None => !opened.0.created,
            },
    {
        let route = route_message(&mut self.pending, context, fresh);
        if route.created {
            let mut actions: Vec<Action<Payload<T>, (), Res>> = Vec::new();
            actions.push(Action::BeginRequest { context: route.context.clone() });
            let session = ClientStreamingSession {
                timed: self.metrics.enabled,
                phase: ClientStreamingPhase::Beginning,
            };
            (route, Some((session, actions)))
        } else {
            (route, None)
        }
    }

    /// Takes the entry of a session out, as long as it is still that session's.
    pub fn forget(&mut self, stream_id: &str, token: u64) -> (removed: bool)
        requires
            old(self).pending.wf(),
        ensures
            final(self).pending.wf(),
            final(self).metrics == old(self).metrics,
            removed == (old(self).pending@.contains_key(stream_id@) && old(
                self,
            ).pending@[stream_id@] == token),
            final(self).pending@ == (if removed {
                old(self).pending@.remove(stream_id@)
            } else {
                old(self).pending@
            }),
    {
        self.pending.pop_if(stream_id, token)
    }
}

/// Makes the consumer for the endpoint of `stream` and installs it there, once its
/// instruments are set up: `instruments` is what that came to. The table
/// of sessions is registered as a storage of the service.
pub fn make_grpc_client_streaming_endpoint_consumer<T, R, E>(
    stream: &mut SinkStreamWithResult<T, R, E, ClientStreamingEndpointConsumer>,
    environment: &mut RuntimeEnvironment,
    instruments: RuntimeResult<()>,
) -> (result: RuntimeResult<()>)
    requires
        old(stream).spec_result_stream().belongs(old(environment)@),
    ensures
        final(stream).spec_result_stream() == old(stream).spec_result_stream(),
        final(stream).spec_error_stream() == old(stream).spec_error_stream(),
        ({
            let id = old(stream).spec_result_stream().spec_id();
            let name = old(environment)@.nodes[old(stream).spec_result_stream().spec_node()].name;
            let failure = sink_metrics_error(old(environment)@.config, id, name, instruments);
            match result {
                Ok(_) => {
                    &&& failure is None
                    &&& final(environment)@ == old(environment)@.with_storage(id)
                    &&& final(stream).spec_consumer() is Some
                    &&& final(stream).spec_consumer()->0.pending.wf()
                    &&& final(stream).spec_consumer()->0.pending@ == Map::<Seq<char>, u64>::empty()
                    &&& is_sink_metrics(
                        final(stream).spec_consumer()->0.metrics,
                        old(environment)@,
                        id,
                    )
                },
                Err(error) => {
                    &&& failure == Some(error@)
                    &&& final(stream).spec_consumer() == old(stream).spec_consumer()
                    &&& final(environment)@ == old(environment)@
                },
            }
        }),
{
    match EndpointMetrics::new(stream, environment, instruments) {
        Ok(metrics) => {
            environment.register_storage(stream.id());
            stream.set_sink_consumer(
                ClientStreamingEndpointConsumer { metrics, pending: PendingTable::new() },
            )
        },
        Err(error) => Err(error),
    }
}

/// Where a session stands after some events, and all it asked for on the way.
pub open spec fn run<T, Res, X>(
    session: ClientStreamingSession<Res, X>,
    events: Seq<ClientStreamingEvent<T, Res, X>>,
) -> (ClientStreamingSession<Res, X>, Seq<Action<Payload<T>, (), Res>>)
    decreases events.len(),
{
    if events.len() == 0 {
        (session, Seq::empty())
    } else {
        let before = run(session, events.drop_last());
        let after = before.0.next(events.last());
        (after.0, before.1 + after.1)
    }
}

/// How many of the running messages the events reported as consumed.
pub open spec fn returned<T, Res, X>(
    session: ClientStreamingSession<Res, X>,
    events: Seq<ClientStreamingEvent<T, Res, X>>,
) -> nat
    decreases events.len(),
{
    if events.len() == 0 {
        0
    } else {
        returned(session, events.drop_last()) + if events.last() is Consumed && run(
            session,
            events.drop_last(),
        ).0.running() > 0 {
            1nat
        } else {
            0
        }
    }
}

/// What a session has asked for by the time it stands where it stands.
pub open spec fn accounted<T, Res, X>(
    session: ClientStreamingSession<Res, X>,
    actions: Seq<Action<Payload<T>, (), Res>>,
    handled: nat,
) -> bool {
    let failed = session.phase == (ClientStreamingPhase::Finished::<Res, X> {
        opened: false,
        result: None,
    });
    let begun = !(session.phase is Beginning) && !failed && !(session.phase
        == (ClientStreamingPhase::Finished::<Res, X> { opened: true, result: None }));
    let over = session.phase matches ClientStreamingPhase::Finished { result: Some(_), .. };
    let ok = session.phase matches ClientStreamingPhase::Finished { result: Some(Ok(_)), .. };
    &&& session.phase != (ClientStreamingPhase::Finished::<Res, X> { opened: true, result: None })
    &&& tally(actions, Kind::Call) == (if begun { 1nat } else { 0 })
    &&& tally(actions, Kind::Record(Metric::ActiveUp)) == (if begun { 1nat } else { 0 })
    &&& tally(actions, Kind::EndRequest) == (if over { 1nat } else { 0 })
    &&& tally(actions, Kind::Record(Metric::ActiveDown)) == (if over { 1nat } else { 0 })
    &&& tally(actions, Kind::Record(Metric::MessagesTotal)) == (if ok { 1nat } else { 0 })
    &&& tally(actions, Kind::Record(Metric::RequestError)) == (if over && !ok { 1nat } else { 0 })
    &&& tally(actions, Kind::Record(Metric::BeginRequestFailed)) == (if failed {
        1nat
    } else {
        0
    })
    &&& tally(actions, Kind::Forget) == (if session.phase is Finished { 1nat } else { 0 })
    &&& tally(actions, Kind::ConsumeMessage) == handled + session.running()
    &&& tally(actions, Kind::CloseAndReceive) == (if session.phase is Closing
        || session.phase is Handling {
        1nat
    } else if session.phase is Finished {
        tally(actions, Kind::CloseAndReceive)
    } else {
        0
    })
    &&& tally(actions, Kind::CloseAndReceive) <= 1
    &&& tally(actions, Kind::HandleResponse) <= tally(actions, Kind::CloseAndReceive)
    &&& session.phase is Closing ==> tally(actions, Kind::HandleResponse) == 0
    &&& session.phase is Handling || ok ==> tally(actions, Kind::HandleResponse) == 1
}

proof fn lemma_step_accounted<T, Res, X>(
    session: ClientStreamingSession<Res, X>,
    actions: Seq<Action<Payload<T>, (), Res>>,
    handled: nat,
    event: ClientStreamingEvent<T, Res, X>,
)
    requires
        accounted(session, actions, handled),
        session.running() < u64::MAX,
    ensures
        accounted(
            session.next(event).0,
            actions + session.next(event).1,
            handled + if event is Consumed && session.running() > 0 {
                1nat
            } else {
                0
            },
        ),
{
    broadcast use {group_tally, group_session};

}

/// Whatever the driver reports, and in whatever order: a session that began opens
/// one call, is active from then to its end, ends exactly once and counts once,
/// as a message or as an error. Its response is handled at most once, only after
/// the call was closed, and a success means that it was. However it ends, the
/// session gives up its entry exactly once, and only after every message that was
/// let in has been consumed.
pub proof fn law_session_accounting<T, Res, X>(
    timed: bool,
    events: Seq<ClientStreamingEvent<T, Res, X>>,
)
    requires
        events.len() < u64::MAX,
    ensures
        ({
            let start = ClientStreamingSession::<Res, X> {
                timed,
                phase: ClientStreamingPhase::Beginning,
            };
            let (session, actions) = run(start, events);
            &&& accounted(session, actions, returned(start, events))
            &&& session.phase is Finished ==> tally(actions, Kind::ConsumeMessage) == returned(
                start,
                events,
            )
            &&& session.running() <= events.len()
        }),
    decreases events.len(),
{
    let start = ClientStreamingSession::<Res, X> { timed, phase: ClientStreamingPhase::Beginning };
    if events.len() == 0 {
        broadcast use group_tally;

    } else {
        law_session_accounting::<T, Res, X>(timed, events.drop_last());
        let before = run(start, events.drop_last());
        lemma_step_accounted(
            before.0,
            before.1,
            returned(start, events.drop_last()),
            events.last(),
        );
    }
}

/// Once a session closes, is cancelled or is over, it lets no message in again.
pub proof fn law_closed_session_stays_closed<T, Res, X>(
    session: ClientStreamingSession<Res, X>,
    event: ClientStreamingEvent<T, Res, X>,
)
    requires
        session.phase is Closing || session.phase is Cancelled || session.phase is Handling
            || session.phase is Finished,
    ensures
        ({
            let (after, actions) = session.next(event);
            &&& after.phase is Closing || after.phase is Cancelled || after.phase is Handling
                || after.phase is Finished
            &&& tally(actions, Kind::ConsumeMessage) == 0
            &&& after.running() <= session.running()
        }),
{
    broadcast use {group_tally, group_session};

}

proof fn lemma_step_forgets_last<T, Res, X>(
    session: ClientStreamingSession<Res, X>,
    actions: Seq<Action<Payload<T>, (), Res>>,
    handled: nat,
    event: ClientStreamingEvent<T, Res, X>,
)
    requires
        accounted(session, actions, handled),
        session.running() < u64::MAX,
        tally(actions, Kind::Record(Metric::BeginRequestFailed)) == 0 ==> follows(
            actions,
            Kind::Forget,
            Kind::EndRequest,
        ),
    ensures
        tally(actions + session.next(event).1, Kind::Record(Metric::BeginRequestFailed)) == 0
            ==> follows(actions + session.next(event).1, Kind::Forget, Kind::EndRequest),
{
    broadcast use {group_tally, group_session};

    let (after, asked) = session.next(event);
    match (session.phase, event) {
        (
            ClientStreamingPhase::Beginning,
            ClientStreamingEvent::Begun { result: Err(_), .. },
        ) => {},
        _ => {
            if after.phase is Finished && !(session.phase is Finished) {
                let result = after.phase->result;
                let context = match session.phase {
                    ClientStreamingPhase::Opening { context } => context,
                    ClientStreamingPhase::Open { context, .. } => context,
                    ClientStreamingPhase::Closing { context, .. } => context,
                    ClientStreamingPhase::Cancelled { context, .. } => context,
                    ClientStreamingPhase::Handling { context } => context,
                    _ => arbitrary(),
                };
                assert(asked == session_end::<T, (), Res>(
                    session.timed,
                    context,
                    result matches Some(Ok(_)),
                ));
                lemma_session_end_order(
                    actions,
                    session.timed,
                    context,
                    result matches Some(Ok(_)),
                );
            } else if tally(actions, Kind::Record(Metric::BeginRequestFailed)) == 0 {
                lemma_follows_add(actions, asked, Kind::Forget, Kind::EndRequest);
            }
        },
    }
}

/// The stream id of a session that began stays taken until after `end_request`: a
/// message that comes in between cannot open a second session under it.
pub proof fn law_entry_kept_until_end<T, Res, X>(
    timed: bool,
    events: Seq<ClientStreamingEvent<T, Res, X>>,
)
    requires
        events.len() < u64::MAX,
    ensures
        ({
            let start = ClientStreamingSession::<Res, X> { timed, phase: ClientStreamingPhase::Beginning };
            let actions = run(start, events).1;
            tally(actions, Kind::Record(Metric::BeginRequestFailed)) == 0 ==> follows(
                actions,
                Kind::Forget,
                Kind::EndRequest,
            )
        }),
    decreases events.len(),
{
    let start = ClientStreamingSession::<Res, X> { timed, phase: ClientStreamingPhase::Beginning };
    if events.len() == 0 {
        broadcast use follows_empty;

    } else {
        law_entry_kept_until_end::<T, Res, X>(timed, events.drop_last());
        law_session_accounting::<T, Res, X>(timed, events.drop_last());
        let before = run(start, events.drop_last());
        lemma_step_forgets_last(
            before.0,
            before.1,
            returned(start, events.drop_last()),
            events.last(),
        );
    }
}

/// The context that the handler gets throughout, once `begin_request` returned it.
pub open spec fn session_context<Res, X>(session: ClientStreamingSession<Res, X>) -> Option<
    MessageContext,
> {
    match session.phase {
        ClientStreamingPhase::Opening { context } => Some(context),
        ClientStreamingPhase::Open { context, .. } => Some(context),
        ClientStreamingPhase::Closing { context, .. } => Some(context),
        ClientStreamingPhase::Cancelled { context, .. } => Some(context),
        ClientStreamingPhase::Handling { context } => Some(context),
        _ => None,
    }
}

/// The result of a session is what ended it, as it was reported: the error of opening
/// the call, the error of its response, what handling the response came to, or the fault
/// of a session that was cancelled while messages were let in. Nothing else ends it, and
/// once it is over it stays as it is.
pub proof fn law_result_is_what_ended_the_session<T, Res, X>(
    session: ClientStreamingSession<Res, X>,
    event: ClientStreamingEvent<T, Res, X>,
)
    ensures
        ({
            let after = session.next(event).0;
            let over = |result: HandlerResult<(), X>|
                after.phase == (ClientStreamingPhase::Finished::<Res, X> {
                    opened: true,
                    result: Some(result),
                });
            let cancelled: HandlerResult<(), X> = Err(
                HandlerError::Fault(Fault::GrpcClientStreamCancelled),
            );
            &&& after.timed == session.timed
            &&& match (session.phase, event) {
                (
                    ClientStreamingPhase::Beginning,
                    ClientStreamingEvent::Begun { result: Err(_), .. },
                ) => after.phase == (ClientStreamingPhase::Finished::<Res, X> {
                    opened: false,
                    result: None,
                }),
                (ClientStreamingPhase::Opening { .. }, ClientStreamingEvent::Opened(Err(error))) =>
                    after.phase == (ClientStreamingPhase::Finished::<Res, X> {
                        opened: false,
                        result: Some(Err(error)),
                    }),
                (
                    ClientStreamingPhase::Closing { running: 0, response: None, .. },
                    ClientStreamingEvent::Received(Err(error)),
                ) => over(Err(error)),
                (
                    ClientStreamingPhase::Closing { running: 1, response: Some(Err(error)), .. },
                    ClientStreamingEvent::Consumed(_),
                ) => over(Err(error)),
                (ClientStreamingPhase::Open { running: 0, .. }, ClientStreamingEvent::Cancelled) =>
                    over(cancelled),
                (
                    ClientStreamingPhase::Cancelled { running: 1, .. },
                    ClientStreamingEvent::Consumed(_),
                ) => over(cancelled),
                (ClientStreamingPhase::Handling { .. }, ClientStreamingEvent::Handled(result)) =>
                    over(result),
                (ClientStreamingPhase::Finished { .. }, _) => after == session,
                _ => !(after.phase is Finished),
            }
        }),
{
}

/// The response of the peer is awaited from when the session is done or a message
/// failed, and handed to the handler as it came, once no message is running; until then
/// it is kept. No message is let in any more, and a cancellation comes too late.
pub proof fn law_response_waits_for_running_messages<T, Res, X>(
    session: ClientStreamingSession<Res, X>,
    event: ClientStreamingEvent<T, Res, X>,
)
    ensures
        ({
            let (after, asked) = session.next(event);
            let handled = |context: MessageContext, value: Res| {
                &&& after.phase == (ClientStreamingPhase::Handling::<Res, X> { context })
                &&& asked == one(
                    Action::<Payload<T>, (), Res>::HandleResponse { context, response: value },
                )
            };
            match (session.phase, event) {
                (ClientStreamingPhase::Open { context, running }, ClientStreamingEvent::Done) => {
                    &&& after.phase == (ClientStreamingPhase::Closing::<Res, X> {
                        context,
                        running,
                        response: None,
                    })
                    &&& asked == one(Action::<Payload<T>, (), Res>::CloseAndReceive)
                },
                (
                    ClientStreamingPhase::Open { context, running },
                    ClientStreamingEvent::Consumed(Err(_)),
                ) => running > 0 ==> {
                    &&& after.phase == (ClientStreamingPhase::Closing::<Res, X> {
                        context,
                        running: (running - 1) as u64,
                        response: None,
                    })
                    &&& asked == one(Action::<Payload<T>, (), Res>::CloseAndReceive)
                },
                (
                    ClientStreamingPhase::Open { context, running },
                    ClientStreamingEvent::Consumed(Ok(_)),
                ) => running > 0 ==> {
                    &&& after.phase == (ClientStreamingPhase::Open::<Res, X> {
                        context,
                        running: (running - 1) as u64,
                    })
                    &&& asked.len() == 0
                },
                (
                    ClientStreamingPhase::Open { context, running },
                    ClientStreamingEvent::Cancelled,
                ) => running > 0 ==> {
                    &&& after.phase == (ClientStreamingPhase::Cancelled::<Res, X> {
                        context,
                        running,
                    })
                    &&& asked.len() == 0
                },
                (
                    ClientStreamingPhase::Closing { context, running, response: None },
                    ClientStreamingEvent::Received(response),
                ) => {
                    &&& running == 0 && response is Ok ==> handled(context, response->Ok_0)
                    &&& running > 0 ==> {
                        &&& after.phase == (ClientStreamingPhase::Closing::<Res, X> {
                            context,
                            running,
                            response: Some(response),
                        })
                        &&& asked.len() == 0
                    }
                },
                (
                    ClientStreamingPhase::Closing { context, running, response },
                    ClientStreamingEvent::Consumed(_),
                ) => {
                    &&& running == 1 && response is Some && response->0 is Ok ==> handled(
                        context,
                        response->0->Ok_0,
                    )
                    &&& running > 1 || (running == 1 && response is None) ==> {
                        &&& after.phase == (ClientStreamingPhase::Closing::<Res, X> {
                            context,
                            running: (running - 1) as u64,
                            response,
                        })
                        &&& asked.len() == 0
                    }
                },
                (
                    ClientStreamingPhase::Cancelled { context, running },
                    ClientStreamingEvent::Consumed(_),
                ) => running > 1 ==> {
                    &&& after.phase == (ClientStreamingPhase::Cancelled::<Res, X> {
                        context,
                        running: (running - 1) as u64,
                    })
                    &&& asked.len() == 0
                },
                (
                    ClientStreamingPhase::Closing { .. },
                    ClientStreamingEvent::Done | ClientStreamingEvent::Cancelled,
                ) => after == session && asked.len() == 0,
                (
                    ClientStreamingPhase::Cancelled { .. },
                    ClientStreamingEvent::Done | ClientStreamingEvent::Cancelled,
                ) => after == session && asked.len() == 0,
                _ => !(after.phase is Handling) || after == session,
            }
        }),
{
}

/// A session ends with `end_request` and counts its result, the call with it where it is
/// measured, and gives up its entry; it ends only once no message is running.
pub proof fn law_session_end_counts_its_result<T, Res, X>(
    session: ClientStreamingSession<Res, X>,
    event: ClientStreamingEvent<T, Res, X>,
)
    requires
        !(session.phase is Finished),
    ensures
        ({
            let (after, asked) = session.next(event);
            let timed = session.timed;
            match after.phase {
                ClientStreamingPhase::Finished { result: Some(result), .. } => {
                    let ok = result is Ok;
                    &&& session.running() == (if event is Consumed {
                        1u64
                    } else {
                        0
                    })
                    &&& forall|kind: Kind|
                        #[trigger] tally(asked, kind) == (match kind {
                            Kind::EndRequest => 1nat,
                            Kind::Forget => 1nat,
                            Kind::Record(Metric::ActiveDown) => 1nat,
                            Kind::Record(Metric::Duration) if timed => 1nat,
                            Kind::Record(Metric::MessagesTotal) if ok => 1nat,
                            Kind::Record(Metric::RequestError) if !ok => 1nat,
                            Kind::Record(Metric::CallSucceeded) if timed && ok => 1nat,
                            Kind::Record(Metric::CallFailed) if timed && !ok => 1nat,
                            _ => 0nat,
                        })
                },
                _ => tally(asked, Kind::EndRequest) == 0,
            }
        }),
{
    broadcast use {group_tally, group_session};

}

/// From `begin_request` to `end_request` the handler gets one and the same context: the
/// one that `begin_request` returned.
pub proof fn law_session_keeps_its_context<T, Res, X>(
    session: ClientStreamingSession<Res, X>,
    event: ClientStreamingEvent<T, Res, X>,
)
    ensures
        ({
            let (after, asked) = session.next(event);
            &&& session_context(session) matches Some(context) ==> {
                &&& under(asked, context)
                &&& session_context(after) matches Some(later) ==> later == context
                &&& session_context(after) is None ==> after.phase is Finished
            }
            &&& session.phase is Beginning ==> (match event {
                ClientStreamingEvent::Begun { result: Ok(context), .. } => session_context(after)
                    == Some(context),
                _ => session_context(after) is None,
            })
        }),
{
    broadcast use {group_under, group_session};

}

/// A message that comes while its session is beginning is kept; one that comes while the
/// session is open is handed to the handler, as it is and at once; one that comes later
/// is turned away and counted, unless the session never opened. It changes nothing else.
pub proof fn law_messages_are_let_in_while_open<T, Res, X>(
    session: ClientStreamingSession<Res, X>,
    value: Payload<T>,
)
    requires
        session.running() < u64::MAX,
    ensures
        ({
            let (after, asked) = session.next(ClientStreamingEvent::<T, Res, X>::Arrived(value));
            match session.phase {
                ClientStreamingPhase::Beginning | ClientStreamingPhase::Opening { .. } => {
                    &&& after == session
                    &&& asked == one(Action::<Payload<T>, (), Res>::Defer { value })
                },
                ClientStreamingPhase::Open { context, running } => {
                    &&& after.phase == (ClientStreamingPhase::Open::<Res, X> {
                        context,
                        running: (running + 1) as u64,
                    })
                    &&& asked == one(
                        Action::<Payload<T>, (), Res>::ConsumeMessage { context, value },
                    )
                },
                ClientStreamingPhase::Finished { opened: false, .. } => {
                    &&& after == session
                    &&& asked.len() == 0
                },
                _ => {
                    &&& after == session
                    &&& asked == one(
                        Action::<Payload<T>, (), Res>::Record(Metric::ClosingRejected),
                    )
                },
            }
        }),
{
}

/// An event that the session does not wait for changes nothing and asks for nothing.
pub proof fn law_stray_events_change_nothing<T, Res, X>(
    session: ClientStreamingSession<Res, X>,
    event: ClientStreamingEvent<T, Res, X>,
)
    requires
        match event {
            ClientStreamingEvent::Begun { .. } => !(session.phase is Beginning),
            ClientStreamingEvent::Opened(_) => !(session.phase is Opening),
            ClientStreamingEvent::Received(_) => !(session.phase matches
                ClientStreamingPhase::Closing { response: None, .. }),
            ClientStreamingEvent::Handled(_) => !(session.phase is Handling),
            ClientStreamingEvent::Consumed(_) => session.running() == 0,
            ClientStreamingEvent::Done | ClientStreamingEvent::Cancelled => !(session.phase is Open),
            ClientStreamingEvent::Arrived(_) => false,
        },
    ensures
        session.next(event).0 == session,
        session.next(event).1.len() == 0,
{
}

/// A session that began opens its call and then lets messages in; one that could not
/// begin is counted as such and gives up its entry.
pub proof fn law_session_begins_with_its_call<T, Res, X>(
    session: ClientStreamingSession<Res, X>,
    begun: HandlerResult<MessageContext, X>,
    call_id: String,
)
    requires
        session.phase is Beginning,
    ensures
        ({
            let (after, asked) = session.next(
                ClientStreamingEvent::<T, Res, X>::Begun { result: begun, call_id },
            );
            match begun {
                Ok(context) => {
                    let (opened, more) = after.next(ClientStreamingEvent::<T, Res, X>::Opened(Ok(())));
                    &&& after.phase == (ClientStreamingPhase::Opening::<Res, X> { context })
                    &&& opened.phase == (ClientStreamingPhase::Open::<Res, X> {
                        context,
                        running: 0,
                    })
                    &&& more.len() == 0
                    &&& asked.last() matches Action::Call { context: out, .. } && {
                        &&& out.spec_stream_id() == Some(call_id)
                        &&& out.same_but_stream(&context)
                    }
                    &&& forall|kind: Kind|
                        #[trigger] tally(asked, kind) == (match kind {
                            Kind::Call => 1nat,
                            Kind::Record(Metric::ActiveUp) => 1nat,
                            Kind::Record(Metric::CallStarted) if session.timed => 1nat,
                            _ => 0nat,
                        })
                },
                Err(_) => asked == two(
                    Action::<Payload<T>, (), Res>::Record(Metric::BeginRequestFailed),
                    Action::Forget,
                ),
            }
        }),
{
    broadcast use {group_tally, group_session};

    match begun {
        Ok(context) => {
            law_call_goes_out_under_its_own_id::<T, Res>(session.timed, context, call_id);
        },
        Err(_) => {},
    }
}

/// What a session has been told by the time it stands where it stands.
pub open spec fn told<T, Res, X>(
    session: ClientStreamingSession<Res, X>,
    events: Seq<ClientStreamingEvent<T, Res, X>>,
) -> bool {
    match session.phase {
        ClientStreamingPhase::Closing { response: Some(Ok(value)), .. } => events.contains(
            ClientStreamingEvent::Received(Ok(value)),
        ),
        ClientStreamingPhase::Closing { response: Some(Err(error)), .. } => events.contains(
            ClientStreamingEvent::Received(Err(error)),
        ),
        ClientStreamingPhase::Cancelled { .. } => events.contains(ClientStreamingEvent::Cancelled),
        ClientStreamingPhase::Finished { result: Some(Ok(_)), .. } => events.contains(
            ClientStreamingEvent::Handled(Ok(())),
        ),
        ClientStreamingPhase::Finished { result: Some(Err(error)), .. } => {
            ||| events.contains(ClientStreamingEvent::Handled(Err(error)))
            ||| events.contains(ClientStreamingEvent::Received(Err(error)))
            ||| events.contains(ClientStreamingEvent::Opened(Err(error)))
            ||| events.contains(ClientStreamingEvent::Cancelled) && error == HandlerError::<
                X,
            >::Fault(Fault::GrpcClientStreamCancelled)
        },
        _ => true,
    }
}

/// Whatever the driver reports, and in whatever order: a session that succeeded had its
/// response handled with success, and one that failed was told of just the error that it
/// failed with, or was cancelled.
pub proof fn law_result_was_reported<T, Res, X>(
    timed: bool,
    events: Seq<ClientStreamingEvent<T, Res, X>>,
)
    ensures
        told(
            run(
                (ClientStreamingSession::<Res, X> { timed, phase: ClientStreamingPhase::Beginning }),
                events,
            ).0,
            events,
        ),
    decreases events.len(),
{
    let start = ClientStreamingSession::<Res, X> { timed, phase: ClientStreamingPhase::Beginning };
    if events.len() > 0 {
        law_result_was_reported::<T, Res, X>(timed, events.drop_last());
        let before = run(start, events.drop_last()).0;
        let after = run(start, events).0;
        lemma_front_contains(events, ClientStreamingEvent::Cancelled);
        lemma_front_contains(events, ClientStreamingEvent::Handled(Ok(())));
        match events.last() {
            ClientStreamingEvent::Handled(Ok(nothing)) => {
                assert(nothing == ());
            },
            _ => {},
        }
        match after.phase {
            ClientStreamingPhase::Closing { response: Some(Ok(value)), .. } => {
                lemma_front_contains(events, ClientStreamingEvent::Received(Ok(value)));
            },
            ClientStreamingPhase::Closing { response: Some(Err(error)), .. } => {
                lemma_front_contains(events, ClientStreamingEvent::Received(Err(error)));
            },
            ClientStreamingPhase::Finished { result: Some(Err(error)), .. } => {
                lemma_front_contains(events, ClientStreamingEvent::Handled(Err(error)));
                lemma_front_contains(events, ClientStreamingEvent::Received(Err(error)));
                lemma_front_contains(events, ClientStreamingEvent::Opened(Err(error)));
            },
            _ => {},
        }
    }
}

/// A session that ends runs `end_request` in its own context before it counts, and gives up its
/// entry last of all.
pub proof fn law_end_request_comes_before_the_counts<T, Res, X>(
    session: ClientStreamingSession<Res, X>,
    event: ClientStreamingEvent<T, Res, X>,
)
    requires
        !(session.phase is Finished),
    ensures
        ({
            let (after, asked) = session.next(event);
            after.phase matches ClientStreamingPhase::Finished { result: Some(_), .. } ==> {
                &&& asked[0] == (Action::<Payload<T>, (), Res>::EndRequest {
                    context: session_context(session)->0,
                })
                &&& asked[1] == Action::<Payload<T>, (), Res>::Record(Metric::ActiveDown)
                &&& asked.last() == Action::<Payload<T>, (), Res>::Forget
            }
        }),
{
    match session.next(event).0.phase {
        ClientStreamingPhase::Finished { result: Some(result), .. } => {
            law_session_end_is_in_order::<T, (), Res>(
                session.timed,
                session_context(session)->0,
                result is Ok,
            );
        },
        _ => {},
    }
}

} // verus!
