//! gRPC sinks that send a stream of requests and get a stream of responses.
use vstd::prelude::*;

use crate::datasink::grpc::endpoint::{is_sink_metrics, sink_metrics_error, EndpointMetrics};
use crate::datasink::grpc::session::{
    group_session, law_call_goes_out_under_its_own_id, law_session_end_is_in_order,
    lemma_session_end_order, push_session_call, push_session_end, route_message, routed,
    session_call, session_end, Route,
};
use crate::operators::sink::SinkStreamWithResult;
use crate::runtime::common::{MessageContext, Payload};
use crate::runtime::environment::RuntimeEnvironment;
use crate::runtime::error::{HandlerResult, RuntimeResult};
use crate::runtime::request::{
    follows, follows_empty, group_tally, group_under, lemma_follows_add, lemma_front_contains, one,
    succeeded, tally, two, under, Action, Kind, Metric,
};
use crate::runtime::store::PendingTable;

verus! {

/// How far the session of a stream has come. `running` counts the messages whose
/// `consume_message` is running; `sending` holds until the peer was told that no
/// more requests come.
pub enum BidiStreamingPhase<X> {
    /// `begin_request` is running.
    Beginning,
    /// The call is being opened.
    Opening { context: MessageContext },
    /// Messages are let in and the next response is awaited.
    Receiving { context: MessageContext, running: u64, sending: bool },
    /// Messages are let in and `handle_response` is running.
    Handling { context: MessageContext, running: u64, sending: bool },
    /// No more responses come and no more messages are let in; the running ones are
    /// awaited.
    Draining {
        context: MessageContext,
        running: u64,
        sending: bool,
        outcome: HandlerResult<(), X>,
    },
    /// Over. `opened` tells whether messages were ever let in; there is no result
    /// where `begin_request` failed.
    Finished { opened: bool, result: Option<HandlerResult<(), X>> },
}

/// What the driver reports.
pub enum BidiStreamingEvent<T, Res, X> {
    /// `begin_request` returned the context to go on with. The call goes out under
    /// the fresh stream id `call_id`.
    Begun { result: HandlerResult<MessageContext, X>, call_id: String },
    /// The call was opened, or not.
    Opened(HandlerResult<(), X>),
    /// A message came for the session.
    Arrived(Payload<T>),
    /// `consume_message` returned for one message.
    Consumed(HandlerResult<(), X>),
    /// A handler called `done` on the session's result context.
    Done,
    /// The context of the session was cancelled.
    Cancelled,
    /// A response came, or the end of the stream, or an error.
    Received(HandlerResult<Option<Res>, X>),
    /// `handle_response` returned.
    Handled(HandlerResult<(), X>),
}

/// The session of one stream.
pub struct BidiStreamingSession<X> {
    pub timed: bool,
    pub phase: BidiStreamingPhase<X>,
}

/// Tells the peer that no more requests come, unless it was told.
pub open spec fn close_send<T, Res>(sending: bool) -> Seq<Action<Payload<T>, (), Res>> {
    if sending {
        one(Action::CloseSend)
    } else {
        Seq::empty()
    }
}

/// The responses are over with `result`. Once nothing runs any more the session
/// ends; the peer hears last of all that no more requests come.
pub open spec fn drain<T, Res, X>(
    timed: bool,
    context: MessageContext,
    running: u64,
    sending: bool,
    result: HandlerResult<(), X>,
) -> (BidiStreamingSession<X>, Seq<Action<Payload<T>, (), Res>>) {
    if running == 0 {
        (
            BidiStreamingSession {
                timed,
                phase: BidiStreamingPhase::Finished { opened: true, result: Some(result) },
            },
            session_end(timed, context, result is Ok) + close_send(sending),
        )
    } else {
        (
            BidiStreamingSession {
                timed,
                phase: BidiStreamingPhase::Draining { context, running, sending, outcome: result },
            },
            Seq::empty(),
        )
    }
}

impl<X> BidiStreamingSession<X> {
    /// How many messages are being consumed.
    pub open spec fn running(self) -> u64 {
        match self.phase {
            BidiStreamingPhase::Receiving { running, .. } => running,
            BidiStreamingPhase::Handling { running, .. } => running,
            BidiStreamingPhase::Draining { running, .. } => running,
            _ => 0,
        }
    }

    /// What an event leads to. An event that the phase does not wait for changes
    /// nothing.
    pub open spec fn next<T, Res>(self, event: BidiStreamingEvent<T, Res, X>) -> (
        BidiStreamingSession<X>,
        Seq<Action<Payload<T>, (), Res>>,
    ) {
        let timed = self.timed;
        match event {
            BidiStreamingEvent::Begun { result, call_id } => match (self.phase, result) {
                (BidiStreamingPhase::Beginning, Ok(context)) => (
                    BidiStreamingSession { timed, phase: BidiStreamingPhase::Opening { context } },
                    session_call(timed, context, call_id),
                ),
                (BidiStreamingPhase::Beginning, Err(_)) => (
                    BidiStreamingSession {
                        timed,
                        phase: BidiStreamingPhase::Finished { opened: false, result: None },
                    },
                    two(Action::Record(Metric::BeginRequestFailed), Action::Forget),
                ),
                _ => (self, Seq::empty()),
            },
            BidiStreamingEvent::Opened(result) => match (self.phase, result) {
                (BidiStreamingPhase::Opening { context }, Ok(_)) => (
                    BidiStreamingSession {
                        timed,
                        phase: BidiStreamingPhase::Receiving { context, running: 0, sending: true },
                    },
                    one(Action::Receive),
                ),
                (BidiStreamingPhase::Opening { context }, Err(error)) => (
                    BidiStreamingSession {
                        timed,
                        phase: BidiStreamingPhase::Finished {
                            opened: false,
                            result: Some(Err(error)),
                        },
                    },
                    session_end(timed, context, false),
                ),
                _ => (self, Seq::empty()),
            },
            BidiStreamingEvent::Arrived(value) => match self.phase {
                BidiStreamingPhase::Beginning => (self, one(Action::Defer { value })),
                BidiStreamingPhase::Opening { .. } => (self, one(Action::Defer { value })),
                BidiStreamingPhase::Receiving { context, running, sending } => (
                    BidiStreamingSession {
                        timed,
                        phase: BidiStreamingPhase::Receiving {
                            context,
                            running: (running + 1) as u64,
                            sending,
                        },
                    },
                    one(Action::ConsumeMessage { context, value }),
                ),
                BidiStreamingPhase::Handling { context, running, sending } => (
                    BidiStreamingSession {
                        timed,
                        phase: BidiStreamingPhase::Handling {
                            context,
                            running: (running + 1) as u64,
                            sending,
                        },
                    },
                    one(Action::ConsumeMessage { context, value }),
                ),
                BidiStreamingPhase::Finished { opened: false, .. } => (self, Seq::empty()),
                _ => (self, one(Action::Record(Metric::ClosingRejected))),
            },
            BidiStreamingEvent::Consumed(result) => match self.phase {
                BidiStreamingPhase::Receiving { context, running, sending } if running > 0 => (
                    BidiStreamingSession {
                        timed,
                        phase: BidiStreamingPhase::Receiving {
                            context,
                            running: (running - 1) as u64,
                            sending: sending && result is Ok,
                        },
                    },
                    close_send(sending && result is Err),
                ),
                BidiStreamingPhase::Handling { context, running, sending } if running > 0 => (
                    BidiStreamingSession {
                        timed,
                        phase: BidiStreamingPhase::Handling {
                            context,
                            running: (running - 1) as u64,
                            sending: sending && result is Ok,
                        },
                    },
                    close_send(sending && result is Err),
                ),
                BidiStreamingPhase::Draining {
                    context,
                    running,
                    sending,
                    outcome,
                } if running > 0 => {
                    let after = drain::<T, Res, X>(
                        timed,
                        context,
                        (running - 1) as u64,
                        sending && result is Ok,
                        outcome,
                    );
                    (after.0, close_send(sending && result is Err) + after.1)
                },
                _ => (self, Seq::empty()),
            },
            BidiStreamingEvent::Done => self.told(),
            BidiStreamingEvent::Cancelled => self.told(),
            BidiStreamingEvent::Received(received) => match self.phase {
                BidiStreamingPhase::Receiving { context, running, sending } => match received {
                    Ok(Some(response)) => (
                        BidiStreamingSession {
                            timed,
                            phase: BidiStreamingPhase::Handling { context, running, sending },
                        },
                        one(Action::HandleResponse { context, response }),
                    ),
                    Ok(None) => drain(timed, context, running, sending, Ok(())),
                    Err(error) => drain(timed, context, running, sending, Err(error)),
                },
                _ => (self, Seq::empty()),
            },
            BidiStreamingEvent::Handled(handled) => match self.phase {
                BidiStreamingPhase::Handling { context, running, sending } => match handled {
                    Ok(_) => (
                        BidiStreamingSession {
                            timed,
                            phase: BidiStreamingPhase::Receiving { context, running, sending },
                        },
                        one(Action::Receive),
                    ),
                    Err(error) => drain(timed, context, running, sending, Err(error)),
                },
                _ => (self, Seq::empty()),
            },
        }
    }

    /// No more requests come: the peer hears of it once.
    pub open spec fn told<T, Res>(self) -> (BidiStreamingSession<X>, Seq<Action<Payload<T>, (), Res>>) {
        let timed = self.timed;
        match self.phase {
            BidiStreamingPhase::Receiving { context, running, sending } => (
                BidiStreamingSession {
                    timed,
                    phase: BidiStreamingPhase::Receiving { context, running, sending: false },
                },
                close_send(sending),
            ),
            BidiStreamingPhase::Handling { context, running, sending } => (
                BidiStreamingSession {
                    timed,
                    phase: BidiStreamingPhase::Handling { context, running, sending: false },
                },
                close_send(sending),
            ),
            BidiStreamingPhase::Draining { context, running, sending, outcome: result } => (
                BidiStreamingSession {
                    timed,
                    phase: BidiStreamingPhase::Draining {
                        context,
                        running,
                        sending: false,
                        outcome: result,
                    },
                },
                close_send(sending),
            ),
            _ => (self, Seq::empty()),
        }
    }

    fn push_close_send<T, Res>(sending: bool, actions: &mut Vec<Action<Payload<T>, (), Res>>)
        ensures
            final(actions)@ == old(actions)@ + close_send(sending),
    {
        if sending {
            actions.push(Action::CloseSend);
        }
        assert(actions@ =~= old(actions)@ + close_send(sending));
    }

    fn drain_with<T, Res>(
        timed: bool,
        context: MessageContext,
        running: u64,
        sending: bool,
        result: HandlerResult<(), X>,
        actions: &mut Vec<Action<Payload<T>, (), Res>>,
    ) -> (session: BidiStreamingSession<X>)
        ensures
            session == drain::<T, Res, X>(timed, context, running, sending, result).0,
            final(actions)@ == old(actions)@ + drain::<T, Res, X>(
                timed,
                context,
                running,
                sending,
                result,
            ).1,
    {
        if running == 0 {
            let ok: bool = succeeded(&result);
            push_session_end(actions, timed, context, ok);
            Self::push_close_send(sending, actions);
            assert(actions@ =~= old(actions)@ + drain::<T, Res, X>(
                timed,
                context,
                running,
                sending,
                result,
            ).1);
            BidiStreamingSession {
                timed,
                phase: BidiStreamingPhase::Finished { opened: true, result: Some(result) },
            }
        } else {
            assert(actions@ =~= old(actions)@ + Seq::empty());
            BidiStreamingSession {
                timed,
                phase: BidiStreamingPhase::Draining { context, running, sending, outcome: result },
            }
        }
    }

    fn tell<T, Res>(self, actions: &mut Vec<Action<Payload<T>, (), Res>>) -> (session: BidiStreamingSession<
        X,
    >)
        ensures
            session == self.told::<T, Res>().0,
            final(actions)@ == old(actions)@ + self.told::<T, Res>().1,
    {
        let timed: bool = self.timed;
        match self.phase {
            BidiStreamingPhase::Receiving { context, running, sending } => {
                Self::push_close_send(sending, actions);
                BidiStreamingSession {
                    timed,
                    phase: BidiStreamingPhase::Receiving { context, running, sending: false },
                }
            },
            BidiStreamingPhase::Handling { context, running, sending } => {
                Self::push_close_send(sending, actions);
                BidiStreamingSession {
                    timed,
                    phase: BidiStreamingPhase::Handling { context, running, sending: false },
                }
            },
            BidiStreamingPhase::Draining { context, running, sending, outcome: result } => {
                Self::push_close_send(sending, actions);
                BidiStreamingSession {
                    timed,
                    phase: BidiStreamingPhase::Draining { context, running, sending: false, outcome: result },
                }
            },
            phase => {
                assert(actions@ =~= old(actions)@ + Seq::empty());
                BidiStreamingSession { timed, phase }
            },
        }
    }

    /// Takes the next event and says what the driver has to do.
    pub fn step<T, Res>(self, event: BidiStreamingEvent<T, Res, X>) -> (outcome: (
        BidiStreamingSession<X>,
        Vec<Action<Payload<T>, (), Res>>,
    ))
        requires
            self.running() < u64::MAX,
        ensures
            outcome.0 == self.next(event).0,
            outcome.1@ == self.next(event).1,
    {
        let ghost start = self;
        let ghost given = event;
        let timed: bool = self.timed;
        let mut actions: Vec<Action<Payload<T>, (), Res>> = Vec::new();
        let session = match event {
            BidiStreamingEvent::Begun { result, call_id } => match (self.phase, result) {
                (BidiStreamingPhase::Beginning, Ok(context)) => {
                    push_session_call(&mut actions, timed, context.clone(), call_id);
                    BidiStreamingSession { timed, phase: BidiStreamingPhase::Opening { context } }
                },
                (BidiStreamingPhase::Beginning, Err(_)) => {
                    actions.push(Action::Record(Metric::BeginRequestFailed));
                    actions.push(Action::Forget);
                    BidiStreamingSession {
                        timed,
                        phase: BidiStreamingPhase::Finished { opened: false, result: None },
                    }
                },
                (phase, _) => BidiStreamingSession { timed, phase },
            },
            BidiStreamingEvent::Opened(result) => match (self.phase, result) {
                (BidiStreamingPhase::Opening { context }, Ok(_)) => {
                    actions.push(Action::Receive);
                    BidiStreamingSession {
                        timed,
                        phase: BidiStreamingPhase::Receiving { context, running: 0, sending: true },
                    }
                },
                (BidiStreamingPhase::Opening { context }, Err(error)) => {
                    push_session_end(&mut actions, timed, context, false);
                    BidiStreamingSession {
                        timed,
                        phase: BidiStreamingPhase::Finished {
                            opened: false,
                            result: Some(Err(error)),
                        },
                    }
                },
                (phase, _) => BidiStreamingSession { timed, phase },
            },
            BidiStreamingEvent::Arrived(value) => match self.phase {
                BidiStreamingPhase::Beginning => {
                    actions.push(Action::Defer { value });
                    BidiStreamingSession { timed, phase: BidiStreamingPhase::Beginning }
                },
                BidiStreamingPhase::Opening { context } => {
                    actions.push(Action::Defer { value });
                    BidiStreamingSession { timed, phase: BidiStreamingPhase::Opening { context } }
                },
                BidiStreamingPhase::Receiving { context, running, sending } => {
                    actions.push(Action::ConsumeMessage { context: context.clone(), value });
                    BidiStreamingSession {
                        timed,
                        phase: BidiStreamingPhase::Receiving {
                            context,
                            running: running + 1,
                            sending,
                        },
                    }
                },
                BidiStreamingPhase::Handling { context, running, sending } => {
                    actions.push(Action::ConsumeMessage { context: context.clone(), value });
                    BidiStreamingSession {
                        timed,
                        phase: BidiStreamingPhase::Handling {
                            context,
                            running: running + 1,
                            sending,
                        },
                    }
                },
                BidiStreamingPhase::Finished { opened: false, result } => BidiStreamingSession {
                    timed,
                    phase: BidiStreamingPhase::Finished { opened: false, result },
                },
                phase => {
                    actions.push(Action::Record(Metric::ClosingRejected));
                    BidiStreamingSession { timed, phase }
                },
            },
            BidiStreamingEvent::Consumed(result) => {
                let ok: bool = succeeded(&result);
                match self.phase {
                    BidiStreamingPhase::Receiving { context, running, sending } if running > 0 => {
                        Self::push_close_send(sending && !ok, &mut actions);
                        BidiStreamingSession {
                            timed,
                            phase: BidiStreamingPhase::Receiving {
                                context,
                                running: running - 1,
                                sending: sending && ok,
                            },
                        }
                    },
                    BidiStreamingPhase::Handling { context, running, sending } if running > 0 => {
                        Self::push_close_send(sending && !ok, &mut actions);
                        BidiStreamingSession {
                            timed,
                            phase: BidiStreamingPhase::Handling {
                                context,
                                running: running - 1,
                                sending: sending && ok,
                            },
                        }
                    },
                    BidiStreamingPhase::Draining {
                        context,
                        running,
                        sending,
                        outcome,
                    } if running > 0 => {
                        Self::push_close_send(sending && !ok, &mut actions);
                        Self::drain_with(
                            timed,
                            context,
                            running - 1,
                            sending && ok,
                            outcome,
                            &mut actions,
                        )
                    },
                    phase => BidiStreamingSession { timed, phase },
                }
            },
            BidiStreamingEvent::Done => self.tell(&mut actions),
            BidiStreamingEvent::Cancelled => self.tell(&mut actions),
            BidiStreamingEvent::Received(received) => match self.phase {
                BidiStreamingPhase::Receiving { context, running, sending } => match received {
                    Ok(Some(response)) => {
                        actions.push(Action::HandleResponse { context: context.clone(), response });
                        BidiStreamingSession {
                            timed,
                            phase: BidiStreamingPhase::Handling { context, running, sending },
                        }
                    },
                    Ok(None) => Self::drain_with(
                        timed,
                        context,
                        running,
                        sending,
                        Ok(()),
                        &mut actions,
                    ),
                    Err(error) => Self::drain_with(
                        timed,
                        context,
                        running,
                        sending,
                        Err(error),
                        &mut actions,
                    ),
                },
                phase => BidiStreamingSession { timed, phase },
            },
            BidiStreamingEvent::Handled(handled) => match self.phase {
                BidiStreamingPhase::Handling { context, running, sending } => match handled {
                    Ok(_) => {
                        actions.push(Action::Receive);
                        BidiStreamingSession {
                            timed,
                            phase: BidiStreamingPhase::Receiving { context, running, sending },
                        }
                    },
                    Err(error) => Self::drain_with(
                        timed,
                        context,
                        running,
                        sending,
                        Err(error),
                        &mut actions,
                    ),
                },
                phase => BidiStreamingSession { timed, phase },
            },
        };
        assert(actions@ =~= start.next(given).1);
        (session, actions)
    }
}

/// The consumer of a gRPC sink with streams both ways.
pub struct BidiStreamingEndpointConsumer {
    pub metrics: EndpointMetrics,
    pub pending: PendingTable,
}

impl BidiStreamingEndpointConsumer {
    /// Finds the session of a message. A session that starts with the message has
    /// `begin_request` run first; the message itself is then reported to the
    /// session, as it is to one that was there already.
    pub fn consume<T, Res, X>(&mut self, context: MessageContext, fresh: String) -> (opened: (
        Route,
        Option<(BidiStreamingSession<X>, Vec<Action<Payload<T>, (), Res>>)>,
    ))
        requires
            old(self).pending.wf(),
            old(self).pending.spec_next() < u64::MAX,
        ensures
            final(self).metrics == old(self).metrics,
            routed(old(self).pending, final(self).pending, context, fresh, opened.0),
            match opened.1 {
                Some((session, actions)) => {
                    &&& opened.0.created
                    &&& session == (BidiStreamingSession::<X> {
                        timed: old(self).metrics.enabled,
                        phase: BidiStreamingPhase::Beginning,
                    })
                    &&& actions@ == one(
                        Action::<Payload<T>, (), Res>::BeginRequest { context: opened.0.context },
                    )
                },
                None => !opened.0.created,
            },
    {
        let route = route_message(&mut self.pending, context, fresh);
        if route.created {
            let mut actions: Vec<Action<Payload<T>, (), Res>> = Vec::new();
            actions.push(Action::BeginRequest { context: route.context.clone() });
            let session = BidiStreamingSession {
                timed: self.metrics.enabled,
                phase: BidiStreamingPhase::Beginning,
            };
            (route, Some((session, actions)))
        } else {
            (route, None)
        }
    }

    /// Takes the entry of a session out, as long as it is still that session's.
    pub fn forget(&mut self, stream_id: &str, token: u64) -> (removed: bool)
        requires
            old(self).pending.wf(),
        ensures
            final(self).pending.wf(),
            final(self).metrics == old(self).metrics,
            removed == (old(self).pending@.contains_key(stream_id@) && old(
                self,
            ).pending@[stream_id@] == token),
            final(self).pending@ == (if removed {
                old(self).pending@.remove(stream_id@)
            } else {
                old(self).pending@
            }),
    {
        self.pending.pop_if(stream_id, token)
    }
}

/// Makes the consumer for the endpoint of `stream` and installs it there, once its
/// instruments are set up: `instruments` is what that came to. The table
/// of sessions is registered as a storage of the service.
pub fn make_grpc_bidi_streaming_endpoint_consumer<T, R, E>(
    stream: &mut SinkStreamWithResult<T, R, E, BidiStreamingEndpointConsumer>,
    environment: &mut RuntimeEnvironment,
    instruments: RuntimeResult<()>,
) -> (result: RuntimeResult<()>)
    requires
        old(stream).spec_result_stream().belongs(old(environment)@),
    ensures
        final(stream).spec_result_stream() == old(stream).spec_result_stream(),
        final(stream).spec_error_stream() == old(stream).spec_error_stream(),
        ({
            let id = old(stream).spec_result_stream().spec_id();
            let name = old(environment)@.nodes[old(stream).spec_result_stream().spec_node()].name;
            let failure = sink_metrics_error(old(environment)@.config, id, name, instruments);
            match result {
                Ok(_) => {
                    &&& failure is None
                    &&& final(environment)@ == old(environment)@.with_storage(id)
                    &&& final(stream).spec_consumer() is Some
                    &&& final(stream).spec_consumer()->0.pending.wf()
                    &&& final(stream).spec_consumer()->0.pending@ == Map::<Seq<char>, u64>::empty()
                    &&& is_sink_metrics(
                        final(stream).spec_consumer()->0.metrics,
                        old(environment)@,
                        id,
                    )
                },
                Err(error) => {
                    &&& failure == Some(error@)
                    &&& final(stream).spec_consumer() == old(stream).spec_consumer()
                    &&& final(environment)@ == old(environment)@
                },
            }
        }),
{
    match EndpointMetrics::new(stream, environment, instruments) {
        Ok(metrics) => {
            environment.register_storage(stream.id());
            stream.set_sink_consumer(
                BidiStreamingEndpointConsumer { metrics, pending: PendingTable::new() },
            )
        },
        Err(error) => Err(error),
    }
}

/// Where a session stands after some events, and all it asked for on the way.
pub open spec fn run<T, Res, X>(
    session: BidiStreamingSession<X>,
    events: Seq<BidiStreamingEvent<T, Res, X>>,
) -> (BidiStreamingSession<X>, Seq<Action<Payload<T>, (), Res>>)
    decreases events.len(),
{
    if events.len() == 0 {
        (session, Seq::empty())
    } else {
        let before = run(session, events.drop_last());
        let after = before.0.next(events.last());
        (after.0, before.1 + after.1)
    }
}

/// How many of the running messages the events reported as consumed.
pub open spec fn returned<T, Res, X>(
    session: BidiStreamingSession<X>,
    events: Seq<BidiStreamingEvent<T, Res, X>>,
) -> nat
    decreases events.len(),
{
    if events.len() == 0 {
        0
    } else {
        returned(session, events.drop_last()) + if events.last() is Consumed && run(
            session,
            events.drop_last(),
        ).0.running() > 0 {
            1nat
        } else {
            0
        }
    }
}

/// What a session has asked for by the time it stands where it stands.
pub open spec fn accounted<T, Res, X>(
    session: BidiStreamingSession<X>,
    actions: Seq<Action<Payload<T>, (), Res>>,
    handled: nat,
) -> bool {
    let failed = session.phase == (BidiStreamingPhase::Finished::<X> {
        opened: false,
        result: None,
    });
    let begun = !(session.phase is Beginning) && !failed && !(session.phase
        == (BidiStreamingPhase::Finished::<X> { opened: true, result: None }));
    let over = session.phase matches BidiStreamingPhase::Finished { result: Some(_), .. };
    let ok = session.phase matches BidiStreamingPhase::Finished { result: Some(Ok(_)), .. };
    &&& session.phase != (BidiStreamingPhase::Finished::<X> { opened: true, result: None })
    &&& tally(actions, Kind::Call) == (if begun { 1nat } else { 0 })
    &&& tally(actions, Kind::Record(Metric::ActiveUp)) == (if begun { 1nat } else { 0 })
    &&& tally(actions, Kind::EndRequest) == (if over { 1nat } else { 0 })
    &&& tally(actions, Kind::Record(Metric::ActiveDown)) == (if over { 1nat } else { 0 })
    &&& tally(actions, Kind::Record(Metric::MessagesTotal)) == (if ok { 1nat } else { 0 })
    &&& tally(actions, Kind::Record(Metric::RequestError)) == (if over && !ok { 1nat } else { 0 })
    &&& tally(actions, Kind::Record(Metric::BeginRequestFailed)) == (if failed {
        1nat
    } else {
        0
    })
    &&& tally(actions, Kind::Forget) == (if session.phase is Finished { 1nat } else { 0 })
    &&& tally(actions, Kind::ConsumeMessage) == handled + session.running()
    &&& tally(actions, Kind::CloseSend) == (match session.phase {
        BidiStreamingPhase::Receiving { sending, .. } if !sending => 1nat,
        BidiStreamingPhase::Handling { sending, .. } if !sending => 1nat,
        BidiStreamingPhase::Draining { sending, .. } if !sending => 1nat,
        BidiStreamingPhase::Finished { opened, .. } if opened => 1nat,
        _ => 0nat,
    })
    &&& session.phase is Receiving ==> tally(actions, Kind::Receive) == tally(
        actions,
        Kind::HandleResponse,
    ) + 1
    &&& session.phase is Handling ==> tally(actions, Kind::Receive) == tally(
        actions,
        Kind::HandleResponse,
    )
    &&& session.phase matches BidiStreamingPhase::Draining { outcome: Ok(_), .. } ==> tally(
        actions,
        Kind::Receive,
    ) == tally(actions, Kind::HandleResponse) + 1
    &&& ok ==> tally(actions, Kind::Receive) == tally(actions, Kind::HandleResponse) + 1
    &&& session.phase is Beginning || session.phase is Opening ==> tally(actions, Kind::Receive)
        == 0 && tally(actions, Kind::HandleResponse) == 0
    &&& session.phase matches BidiStreamingPhase::Finished { opened: false, result: Some(r) }
        ==> r is Err
}

proof fn lemma_step_accounted<T, Res, X>(
    session: BidiStreamingSession<X>,
    actions: Seq<Action<Payload<T>, (), Res>>,
    handled: nat,
    event: BidiStreamingEvent<T, Res, X>,
)
    requires
        accounted(session, actions, handled),
        session.running() < u64::MAX,
    ensures
        accounted(
            session.next(event).0,
            actions + session.next(event).1,
            handled + if event is Consumed && session.running() > 0 {
                1nat
            } else {
                0
            },
        ),
{
    broadcast use {group_tally, group_session};

}

/// Whatever the driver reports, and in whatever order: a session that began opens
/// one call, is active from then to its end, ends exactly once and counts once,
/// as a message or as an error. Responses are handled one at a time, each before
/// the next is awaited. The peer of an opened call is told exactly once that no more
/// requests come. However it ends, the session gives up its entry exactly once, and
/// only after every message that was let in has been consumed.
pub proof fn law_session_accounting<T, Res, X>(
    timed: bool,
    events: Seq<BidiStreamingEvent<T, Res, X>>,
)
    requires
        events.len() < u64::MAX,
    ensures
        ({
            let start = BidiStreamingSession::<X> {
                timed,
                phase: BidiStreamingPhase::Beginning,
            };
            let (session, actions) = run(start, events);
            &&& accounted(session, actions, returned(start, events))
            &&& session.phase is Finished ==> tally(actions, Kind::ConsumeMessage) == returned(
                start,
                events,
            )
            &&& session.running() <= events.len()
        }),
    decreases events.len(),
{
    let start = BidiStreamingSession::<X> { timed, phase: BidiStreamingPhase::Beginning };
    if events.len() == 0 {
        broadcast use group_tally;

    } else {
        law_session_accounting::<T, Res, X>(timed, events.drop_last());
        let before = run(start, events.drop_last());
        lemma_step_accounted(
            before.0,
            before.1,
            returned(start, events.drop_last()),
            events.last(),
        );
    }
}

/// Once the responses are over, a session lets no message in again.
pub proof fn law_closed_session_stays_closed<T, Res, X>(
    session: BidiStreamingSession<X>,
    event: BidiStreamingEvent<T, Res, X>,
)
    requires
        session.phase is Draining || session.phase is Finished,
    ensures
        ({
            let (after, actions) = session.next(event);
            &&& after.phase is Draining || after.phase is Finished
            &&& tally(actions, Kind::ConsumeMessage) == 0
            &&& after.running() <= session.running()
        }),
{
    broadcast use {group_tally, group_session};

}

proof fn lemma_step_forgets_last<T, Res, X>(
    session: BidiStreamingSession<X>,
    actions: Seq<Action<Payload<T>, (), Res>>,
    handled: nat,
    event: BidiStreamingEvent<T, Res, X>,
)
    requires
        accounted(session, actions, handled),
        session.running() < u64::MAX,
        tally(actions, Kind::Record(Metric::BeginRequestFailed)) == 0 ==> follows(
            actions,
            Kind::Forget,
            Kind::EndRequest,
        ),
    ensures
        tally(actions + session.next(event).1, Kind::Record(Metric::BeginRequestFailed)) == 0
            ==> follows(actions + session.next(event).1, Kind::Forget, Kind::EndRequest),
{
    broadcast use {group_tally, group_session};

    let (after, asked) = session.next(event);
    match event {
        BidiStreamingEvent::Begun { result: Err(_), .. } if session.phase is Beginning => {},
        _ => {
            if after.phase is Finished && !(session.phase is Finished) {
                let ok = after.phase matches BidiStreamingPhase::Finished {
                    result: Some(Ok(_)),
                    ..
                };
                let context = match session.phase {
                    BidiStreamingPhase::Opening { context } => context,
                    BidiStreamingPhase::Receiving { context, .. } => context,
                    BidiStreamingPhase::Handling { context, .. } => context,
                    BidiStreamingPhase::Draining { context, .. } => context,
                    _ => arbitrary(),
                };
                let end = session_end::<T, (), Res>(session.timed, context, ok);
                let early = match (session.phase, event) {
                    (
                        BidiStreamingPhase::Draining { sending, .. },
                        BidiStreamingEvent::Consumed(result),
                    ) => close_send::<T, Res>(sending && result is Err),
                    _ => Seq::empty(),
                };
                let late = match (session.phase, event) {
                    (BidiStreamingPhase::Opening { .. }, _) => Seq::empty(),
                    (
                        BidiStreamingPhase::Draining { sending, .. },
                        BidiStreamingEvent::Consumed(result),
                    ) => close_send::<T, Res>(sending && result is Ok),
                    (BidiStreamingPhase::Receiving { sending, .. }, _) => close_send::<T, Res>(
                        sending,
                    ),
                    (BidiStreamingPhase::Handling { sending, .. }, _) => close_send::<T, Res>(
                        sending,
                    ),
                    _ => Seq::empty(),
                };
                assert(asked =~= early + end + late);
                lemma_follows_add(actions, early, Kind::Forget, Kind::EndRequest);
                lemma_session_end_order(actions + early, session.timed, context, ok);
                lemma_follows_add(actions + early + end, late, Kind::Forget, Kind::EndRequest);
                assert(actions + asked =~= actions + early + end + late);
            } else if tally(actions, Kind::Record(Metric::BeginRequestFailed)) == 0 {
                lemma_follows_add(actions, asked, Kind::Forget, Kind::EndRequest);
            }
        },
    }
}

/// The stream id of a session that began stays taken until after `end_request`: a
/// message that comes in between cannot open a second session under it.
pub proof fn law_entry_kept_until_end<T, Res, X>(
    timed: bool,
    events: Seq<BidiStreamingEvent<T, Res, X>>,
)
    requires
        events.len() < u64::MAX,
    ensures
        ({
            let start = BidiStreamingSession::<X> { timed, phase: BidiStreamingPhase::Beginning };
            let actions = run(start, events).1;
            tally(actions, Kind::Record(Metric::BeginRequestFailed)) == 0 ==> follows(
                actions,
                Kind::Forget,
                Kind::EndRequest,
            )
        }),
    decreases events.len(),
{
    let start = BidiStreamingSession::<X> { timed, phase: BidiStreamingPhase::Beginning };
    if events.len() == 0 {
        broadcast use follows_empty;

    } else {
        law_entry_kept_until_end::<T, Res, X>(timed, events.drop_last());
        law_session_accounting::<T, Res, X>(timed, events.drop_last());
        let before = run(start, events.drop_last());
        lemma_step_forgets_last(
            before.0,
            before.1,
            returned(start, events.drop_last()),
            events.last(),
        );
    }
}

/// Whether the responses of a session came to `result`: the session is over with it or,
/// while messages are still running, will be.
pub open spec fn came_to<X>(session: BidiStreamingSession<X>, result: HandlerResult<(), X>) -> bool {
    match session.phase {
        BidiStreamingPhase::Draining { outcome, .. } => outcome == result,
        BidiStreamingPhase::Finished { opened, result: found } => opened && found == Some(result),
        _ => false,
    }
}

/// The result of a session is what ended its responses: the error of a receive or of a
/// handler, as it was reported, and a success only at the peer's end of the stream.
/// Nothing that happens afterwards changes it, and nothing else ends the responses.
pub proof fn law_result_is_what_ended_the_responses<T, Res, X>(
    session: BidiStreamingSession<X>,
    event: BidiStreamingEvent<T, Res, X>,
)
    ensures
        ({
            let after = session.next(event).0;
            &&& after.timed == session.timed
            &&& match (session.phase, event) {
                (
                    BidiStreamingPhase::Beginning,
                    BidiStreamingEvent::Begun { result: Err(_), .. },
                ) => after.phase == (BidiStreamingPhase::Finished::<X> {
                    opened: false,
                    result: None,
                }),
                (BidiStreamingPhase::Opening { .. }, BidiStreamingEvent::Opened(Err(error))) =>
                    after.phase == (BidiStreamingPhase::Finished::<X> {
                        opened: false,
                        result: Some(Err(error)),
                    }),
                (BidiStreamingPhase::Receiving { .. }, BidiStreamingEvent::Received(Ok(None))) =>
                    came_to(after, Ok(())),
                (BidiStreamingPhase::Receiving { .. }, BidiStreamingEvent::Received(Err(error))) =>
                    came_to(after, Err(error)),
                (BidiStreamingPhase::Handling { .. }, BidiStreamingEvent::Handled(Err(error))) =>
                    came_to(after, Err(error)),
                (BidiStreamingPhase::Draining { outcome, .. }, _) => came_to(after, outcome),
                (BidiStreamingPhase::Finished { .. }, _) => after == session,
                _ => !(after.phase is Draining) && !(after.phase is Finished),
            }
        }),
{
}

/// A session whose responses are over ends as soon as no message is running, and not
/// before; its end hands `end_request` the session's context and counts the result, the
/// call with it where it is measured, and gives up the entry.
pub proof fn law_session_ends_once_nothing_runs<T, Res, X>(
    session: BidiStreamingSession<X>,
    event: BidiStreamingEvent<T, Res, X>,
)
    requires
        session.phase is Draining ==> session.running() > 0,
        !(session.phase is Finished),
    ensures
        ({
            let (after, asked) = session.next(event);
            let timed = session.timed;
            &&& after.phase is Draining ==> after.running() > 0
            &&& match after.phase {
                BidiStreamingPhase::Finished { result: Some(result), .. } => {
                    let ok = result is Ok;
                    &&& session.running() == (if event is Consumed {
                        1u64
                    } else {
                        0
                    })
                    &&& forall|kind: Kind|
                        kind != Kind::CloseSend ==> #[trigger] tally(asked, kind) == (match kind {
                            Kind::EndRequest => 1nat,
                            Kind::Forget => 1nat,
                            Kind::Record(Metric::ActiveDown) => 1nat,
                            Kind::Record(Metric::Duration) if timed => 1nat,
                            Kind::Record(Metric::MessagesTotal) if ok => 1nat,
                            Kind::Record(Metric::RequestError) if !ok => 1nat,
                            Kind::Record(Metric::CallSucceeded) if timed && ok => 1nat,
                            Kind::Record(Metric::CallFailed) if timed && !ok => 1nat,
                            _ => 0nat,
                        })
                },
                _ => tally(asked, Kind::EndRequest) == 0,
            }
        }),
{
    broadcast use {group_tally, group_session};

}

/// The context that the handler gets throughout, once `begin_request` returned it.
pub open spec fn session_context<X>(session: BidiStreamingSession<X>) -> Option<MessageContext> {
    match session.phase {
        BidiStreamingPhase::Opening { context } => Some(context),
        BidiStreamingPhase::Receiving { context, .. } => Some(context),
        BidiStreamingPhase::Handling { context, .. } => Some(context),
        BidiStreamingPhase::Draining { context, .. } => Some(context),
        _ => None,
    }
}

/// From `begin_request` to `end_request` the handler gets one and the same context: the
/// one that `begin_request` returned.
pub proof fn law_session_keeps_its_context<T, Res, X>(
    session: BidiStreamingSession<X>,
    event: BidiStreamingEvent<T, Res, X>,
)
    ensures
        ({
            let (after, asked) = session.next(event);
            &&& session_context(session) matches Some(context) ==> {
                &&& under(asked, context)
                &&& session_context(after) matches Some(later) ==> later == context
                &&& session_context(after) is None ==> after.phase is Finished
            }
            &&& session.phase is Beginning ==> (match event {
                BidiStreamingEvent::Begun { result: Ok(context), .. } => session_context(after)
                    == Some(context),
                _ => session_context(after) is None,
            })
        }),
{
    broadcast use {group_under, group_session};

}

/// A message that comes while its session is beginning is kept; one that comes while
/// responses may still come is handed to the handler, as it is and at once; one that
/// comes later is turned away and counted, unless the session never opened. It changes
/// nothing else.
pub proof fn law_messages_are_let_in_while_open<T, Res, X>(
    session: BidiStreamingSession<X>,
    value: Payload<T>,
)
    requires
        session.running() < u64::MAX,
    ensures
        ({
            let (after, asked) = session.next(BidiStreamingEvent::<T, Res, X>::Arrived(value));
            match session.phase {
                BidiStreamingPhase::Beginning | BidiStreamingPhase::Opening { .. } => {
                    &&& after == session
                    &&& asked == one(Action::<Payload<T>, (), Res>::Defer { value })
                },
                BidiStreamingPhase::Receiving { context, running, sending } => {
                    &&& after.phase == (BidiStreamingPhase::Receiving::<X> {
                        context,
                        running: (running + 1) as u64,
                        sending,
                    })
                    &&& asked == one(
                        Action::<Payload<T>, (), Res>::ConsumeMessage { context, value },
                    )
                },
                BidiStreamingPhase::Handling { context, running, sending } => {
                    &&& after.phase == (BidiStreamingPhase::Handling::<X> {
                        context,
                        running: (running + 1) as u64,
                        sending,
                    })
                    &&& asked == one(
                        Action::<Payload<T>, (), Res>::ConsumeMessage { context, value },
                    )
                },
                BidiStreamingPhase::Finished { opened: false, .. } => {
                    &&& after == session
                    &&& asked.len() == 0
                },
                _ => {
                    &&& after == session
                    &&& asked == one(
                        Action::<Payload<T>, (), Res>::Record(Metric::ClosingRejected),
                    )
                },
            }
        }),
{
}

/// Every response is handed to the handler as it came, and the next one is awaited once
/// it was handled. The messages that run are not touched by it.
pub proof fn law_responses_are_handled_in_turn<T, Res, X>(
    session: BidiStreamingSession<X>,
    context: MessageContext,
    running: u64,
    sending: bool,
    response: Res,
)
    ensures
        session.phase == (BidiStreamingPhase::Receiving::<X> { context, running, sending }) ==> {
            let (after, asked) = session.next(
                BidiStreamingEvent::<T, Res, X>::Received(Ok(Some(response))),
            );
            &&& after.phase == (BidiStreamingPhase::Handling::<X> { context, running, sending })
            &&& asked == one(
                Action::<Payload<T>, (), Res>::HandleResponse { context, response },
            )
        },
        session.phase == (BidiStreamingPhase::Handling::<X> { context, running, sending }) ==> {
            let (after, asked) = session.next(BidiStreamingEvent::<T, Res, X>::Handled(Ok(())));
            &&& after.phase == (BidiStreamingPhase::Receiving::<X> { context, running, sending })
            &&& asked == one(Action::<Payload<T>, (), Res>::Receive)
        },
        session.phase == (BidiStreamingPhase::Opening::<X> { context }) ==> {
            let (after, asked) = session.next(BidiStreamingEvent::<T, Res, X>::Opened(Ok(())));
            &&& after.phase == (BidiStreamingPhase::Receiving::<X> {
                context,
                running: 0,
                sending: true,
            })
            &&& asked == one(Action::<Payload<T>, (), Res>::Receive)
        },
{
}

/// Whether the peer may still get requests.
pub open spec fn sends<X>(session: BidiStreamingSession<X>) -> bool {
    match session.phase {
        BidiStreamingPhase::Receiving { sending, .. } => sending,
        BidiStreamingPhase::Handling { sending, .. } => sending,
        BidiStreamingPhase::Draining { sending, .. } => sending,
        _ => false,
    }
}

/// The peer is told that no more requests come when the handler is done, the context is
/// cancelled, a message fails or the session ends, whichever comes first, and by nothing
/// else. A message that was consumed is no longer running, whatever came of it.
pub proof fn law_peer_is_told_when_sending_ends<T, Res, X>(
    session: BidiStreamingSession<X>,
    event: BidiStreamingEvent<T, Res, X>,
)
    requires
        session.running() < u64::MAX,
    ensures
        ({
            let (after, asked) = session.next(event);
            let ends = match event {
                BidiStreamingEvent::Done => true,
                BidiStreamingEvent::Cancelled => true,
                BidiStreamingEvent::Consumed(Err(_)) => session.running() > 0,
                _ => false,
            };
            &&& sends(session) ==> {
                &&& tally(asked, Kind::CloseSend) == (if ends || after.phase is Finished {
                    1nat
                } else {
                    0
                })
                &&& sends(after) == (!ends && !(after.phase is Finished))
            }
            &&& !sends(session) ==> {
                &&& tally(asked, Kind::CloseSend) == 0
                &&& sends(after) ==> session.phase is Opening
            }
            &&& event is Consumed && session.running() > 0 ==> after.running()
                == session.running() - 1
            &&& !(event is Consumed) && !(event is Arrived) && !(after.phase is Finished)
                ==> after.running() == session.running()
        }),
{
    broadcast use {group_tally, group_session};

}

/// An event that the session does not wait for changes nothing and asks for nothing.
pub proof fn law_stray_events_change_nothing<T, Res, X>(
    session: BidiStreamingSession<X>,
    event: BidiStreamingEvent<T, Res, X>,
)
    requires
        match event {
            BidiStreamingEvent::Begun { .. } => !(session.phase is Beginning),
            BidiStreamingEvent::Opened(_) => !(session.phase is Opening),
            BidiStreamingEvent::Received(_) => !(session.phase is Receiving),
            BidiStreamingEvent::Handled(_) => !(session.phase is Handling),
            BidiStreamingEvent::Consumed(_) => session.running() == 0,
            BidiStreamingEvent::Done | BidiStreamingEvent::Cancelled => session_context(session)
                is None || session.phase is Opening,
            BidiStreamingEvent::Arrived(_) => false,
        },
    ensures
        session.next(event).0 == session,
        session.next(event).1.len() == 0,
{
}

/// A session that began opens its call; one that could not begin is counted as such and
/// gives up its entry.
pub proof fn law_session_begins_with_its_call<T, Res, X>(
    session: BidiStreamingSession<X>,
    begun: HandlerResult<MessageContext, X>,
    call_id: String,
)
    requires
        session.phase is Beginning,
    ensures
        ({
            let (after, asked) = session.next(
                BidiStreamingEvent::<T, Res, X>::Begun { result: begun, call_id },
            );
            match begun {
                Ok(context) => {
                    &&& after.phase == (BidiStreamingPhase::Opening::<X> { context })
                    &&& asked.last() matches Action::Call { context: out, .. } && {
                        &&& out.spec_stream_id() == Some(call_id)
                        &&& out.same_but_stream(&context)
                    }
                    &&& forall|kind: Kind|
                        #[trigger] tally(asked, kind) == (match kind {
                            Kind::Call => 1nat,
                            Kind::Record(Metric::ActiveUp) => 1nat,
                            Kind::Record(Metric::CallStarted) if session.timed => 1nat,
                            _ => 0nat,
                        })
                },
                Err(_) => asked == two(
                    Action::<Payload<T>, (), Res>::Record(Metric::BeginRequestFailed),
                    Action::Forget,
                ),
            }
        }),
{
    broadcast use {group_tally, group_session};

    match begun {
        Ok(context) => {
            law_call_goes_out_under_its_own_id::<T, Res>(session.timed, context, call_id);
        },
        Err(_) => {},
    }
}

/// Whatever the driver reports, and in whatever order: a session that came to a success
/// was told of the end of the responses, and one that came to an error was told of just
/// that error, when its call was opened, a response was received or one was handled.
pub proof fn law_result_was_reported<T, Res, X>(
    timed: bool,
    events: Seq<BidiStreamingEvent<T, Res, X>>,
)
    ensures
        ({
            let start = BidiStreamingSession::<X> { timed, phase: BidiStreamingPhase::Beginning };
            let came = match run(start, events).0.phase {
                BidiStreamingPhase::Draining { outcome, .. } => Some(outcome),
                BidiStreamingPhase::Finished { result, .. } => result,
                _ => None,
            };
            match came {
                Some(Ok(_)) => events.contains(BidiStreamingEvent::Received(Ok(None))),
                Some(Err(error)) => {
                    ||| events.contains(BidiStreamingEvent::Received(Err(error)))
                    ||| events.contains(BidiStreamingEvent::Handled(Err(error)))
                    ||| events.contains(BidiStreamingEvent::Opened(Err(error)))
                },
                None => true,
            }
        }),
    decreases events.len(),
{
    let start = BidiStreamingSession::<X> { timed, phase: BidiStreamingPhase::Beginning };
    if events.len() > 0 {
        law_result_was_reported::<T, Res, X>(timed, events.drop_last());
        let before = run(start, events.drop_last()).0;
        law_result_is_what_ended_the_responses(before, events.last());
        lemma_front_contains(events, BidiStreamingEvent::Received(Ok(None)));
        let came = match run(start, events).0.phase {
            BidiStreamingPhase::Draining { outcome, .. } => Some(outcome),
            BidiStreamingPhase::Finished { result, .. } => result,
            _ => None,
        };
        match came {
            Some(Err(error)) => {
                lemma_front_contains(events, BidiStreamingEvent::Received(Err(error)));
                lemma_front_contains(events, BidiStreamingEvent::Handled(Err(error)));
                lemma_front_contains(events, BidiStreamingEvent::Opened(Err(error)));
            },
            _ => {},
        }
    }
}

/// A session that ends runs `end_request` in its own context before it counts; it gives up its
/// entry after that, and a peer that was not told before hears last of all that no more
/// requests come. A message that fails tells the peer first.
pub proof fn law_end_request_comes_before_the_counts<T, Res, X>(
    session: BidiStreamingSession<X>,
    event: BidiStreamingEvent<T, Res, X>,
)
    requires
        !(session.phase is Finished),
    ensures
        ({
            let (after, asked) = session.next(event);
            after.phase matches BidiStreamingPhase::Finished { result: Some(_), .. } ==> {
                let told = sends(session) && (event matches BidiStreamingEvent::Consumed(Err(_)));
                let at = if told {
                    1int
                } else {
                    0
                };
                &&& told ==> asked[0] is CloseSend
                &&& asked[at] == (Action::<Payload<T>, (), Res>::EndRequest {
                    context: session_context(session)->0,
                })
                &&& asked[at + 1] == Action::<Payload<T>, (), Res>::Record(Metric::ActiveDown)
                &&& sends(session) && !told ==> asked.last() is CloseSend && asked[asked.len() - 2]
                    is Forget
                &&& !sends(session) || told ==> asked.last() is Forget
            }
        }),
{
    match session.next(event).0.phase {
        BidiStreamingPhase::Finished { result: Some(result), .. } => {
            law_session_end_is_in_order::<T, (), Res>(
                session.timed,
                session_context(session)->0,
                result is Ok,
            );
        },
        _ => {},
    }
}

} // verus!
