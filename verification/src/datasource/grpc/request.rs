//! The requests of a gRPC source.
use vstd::prelude::*;

use crate::runtime::common::MessageContext;
use crate::runtime::error::{Fault, HandlerError, HandlerResult};
use crate::runtime::request::{
    follows, follows_empty, follows_push, group_tally, lemma_follows_add, one, push_request_end,
    request_end, succeeded, tally, three, two, Action, Kind, Metric,
};

verus! {

/// Which way requests and responses flow.
#[derive(Clone, Copy, Debug, PartialEq, Eq, Structural)]
pub enum GrpcMode {
    /// One request, one response.
    Unary,
    /// A stream of requests, one response.
    ClientStreaming,
    /// One request, a stream of responses.
    ServerStreaming,
}

/// How far a request has come.
pub enum GrpcPhase<Req, Res, X> {
    /// `begin_request` is running. A stream of requests has none at hand yet.
    Beginning { request: Option<Req> },
    /// `consume_message` is running.
    Consuming { context: MessageContext },
    /// The next request of the stream is awaited.
    Reading { context: MessageContext },
    /// `eof` is running.
    AtEof { context: MessageContext },
    /// The response is awaited or, for a stream of responses, that the request is
    /// done.
    Waiting { context: MessageContext },
    /// The request is no longer pending; results that are being delivered are
    /// awaited.
    Draining { context: MessageContext, outcome: HandlerResult<(), X>, response: Option<Res> },
    /// `end_request` is running.
    Ending { outcome: HandlerResult<(), X>, response: Option<Res> },
    /// `end_request` is running for a request whose stream id is taken.
    Rejecting,
    /// Over. `began` tells whether `begin_request` succeeded.
    Finished { began: bool, result: HandlerResult<(), X>, response: Option<Res> },
}

/// What the driver reports.
pub enum GrpcEvent<Req, Res, X> {
    /// `begin_request` returned the context to go on with, under its stream id.
    /// `registered` tells whether the request could be entered as pending.
    Begun { begun: HandlerResult<MessageContext, X>, registered: bool },
    /// `consume_message` returned the context to go on with.
    Consumed(HandlerResult<MessageContext, X>),
    /// A request of the stream came, or an error, or the end of the stream.
    Received(Option<HandlerResult<Req, X>>),
    /// `eof` returned.
    EofHandled,
    /// The response was sent, or the wait for it failed.
    Answered(HandlerResult<Res, X>),
    /// The request is done.
    Done,
    /// The context of the request was cancelled.
    Cancelled,
    /// No result is being delivered any more.
    Drained,
    /// `end_request` returned.
    Ended(HandlerResult<(), X>),
}

/// One request of a gRPC source.
pub struct GrpcRequest<Req, Res, X> {
    pub mode: GrpcMode,
    pub phase: GrpcPhase<Req, Res, X>,
}

impl<Req, Res, X> GrpcRequest<Req, Res, X> {
    pub open spec fn at(self, phase: GrpcPhase<Req, Res, X>) -> GrpcRequest<Req, Res, X> {
        GrpcRequest { mode: self.mode, phase }
    }

    /// A request with results leaves the pending ones before `end_request` runs.
    pub open spec fn leaving(
        self,
        context: MessageContext,
        outcome: HandlerResult<(), X>,
        response: Option<Res>,
        has_result: bool,
    ) -> (GrpcRequest<Req, Res, X>, Seq<Action<Req, (), ()>>) {
        if has_result {
            (
                self.at(GrpcPhase::Draining { context, outcome, response }),
                three(Action::Forget, Action::Record(Metric::PendingDown), Action::Drain),
            )
        } else {
            (
                self.at(GrpcPhase::Ending { outcome, response }),
                one(Action::EndRequest { context }),
            )
        }
    }

    /// What follows `begin_request`: the request is active and, where results come
    /// back to it, pending.
    pub open spec fn entering(has_result: bool) -> Seq<Action<Req, (), ()>> {
        if has_result {
            two(Action::Record(Metric::ActiveUp), Action::Record(Metric::PendingUp))
        } else {
            one(Action::Record(Metric::ActiveUp))
        }
    }

    /// What an event leads to, where `has_result` tells whether results come back to the
    /// input by then. An event that the phase does not wait for changes nothing.
    pub open spec fn next(self, event: GrpcEvent<Req, Res, X>, has_result: bool) -> (
        GrpcRequest<Req, Res, X>,
        Seq<Action<Req, (), ()>>,
    ) {
        match (self.phase, event) {
            (
                GrpcPhase::Beginning { request },
                GrpcEvent::Begun { begun: Ok(context), registered },
            ) => if has_result && !registered {
                (
                    self.at(GrpcPhase::Rejecting),
                    two(Action::Record(Metric::ActiveUp), Action::EndRequest { context }),
                )
            } else {
                match request {
                    Some(value) => (
                        self.at(GrpcPhase::Consuming { context }),
                        Self::entering(has_result).push(Action::ConsumeMessage { context, value }),
                    ),
                    None => (
                        self.at(GrpcPhase::Reading { context }),
                        Self::entering(has_result).push(Action::Receive),
                    ),
                }
            },
            (GrpcPhase::Beginning { .. }, GrpcEvent::Begun { begun: Err(error), .. }) => (
                self.at(
                    GrpcPhase::Finished { began: false, result: Err(error), response: None },
                ),
                one(Action::Record(Metric::BeginRequestFailed)),
            ),
            (GrpcPhase::Rejecting, GrpcEvent::Ended(_)) => (
                self.at(
                    GrpcPhase::Finished {
                        began: true,
                        result: Err(HandlerError::Fault(Fault::GrpcDuplicateStream)),
                        response: None,
                    },
                ),
                request_end(true, false),
            ),
            (GrpcPhase::Consuming { .. }, GrpcEvent::Consumed(Ok(context))) => if self.mode
                == GrpcMode::ClientStreaming {
                (self.at(GrpcPhase::Reading { context }), one(Action::Receive))
            } else {
                (self.at(GrpcPhase::AtEof { context }), one(Action::Eof { context }))
            },
            (GrpcPhase::Consuming { context }, GrpcEvent::Consumed(Err(error))) => self.leaving(
                context,
                Err(error),
                None,
                has_result,
            ),
            (GrpcPhase::Reading { context }, GrpcEvent::Received(Some(Ok(value)))) => (
                self.at(GrpcPhase::Consuming { context }),
                one(Action::ConsumeMessage { context, value }),
            ),
            (GrpcPhase::Reading { context }, GrpcEvent::Received(Some(Err(error)))) => self.leaving(
                context,
                Err(error),
                None,
                has_result,
            ),
            (GrpcPhase::Reading { context }, GrpcEvent::Received(None)) => (
                self.at(GrpcPhase::AtEof { context }),
                one(Action::Eof { context }),
            ),
            (GrpcPhase::AtEof { context }, GrpcEvent::EofHandled) => if !has_result {
                self.leaving(
                context,
                Ok(()),
                None,
                has_result,
            )
            } else if self.mode == GrpcMode::ServerStreaming {
                (self.at(GrpcPhase::Waiting { context }), one(Action::AwaitDone))
            } else {
                (self.at(GrpcPhase::Waiting { context }), one(Action::AwaitResponse))
            },
            (GrpcPhase::Waiting { context }, GrpcEvent::Answered(Ok(response))) if self.mode
                != GrpcMode::ServerStreaming => self.leaving(
                context,
                Ok(()),
                Some(response),
                has_result,
            ),
            (GrpcPhase::Waiting { context }, GrpcEvent::Answered(Err(error))) if self.mode
                != GrpcMode::ServerStreaming => self.leaving(
                context,
                Err(error),
                None,
                has_result,
            ),
            (GrpcPhase::Waiting { context }, GrpcEvent::Done) if self.mode
                == GrpcMode::ServerStreaming => self.leaving(
                context,
                Ok(()),
                None,
                has_result,
            ),
            (GrpcPhase::Waiting { context }, GrpcEvent::Cancelled) if self.mode
                == GrpcMode::ServerStreaming => self.leaving(
                context,
                Err(HandlerError::Fault(Fault::GrpcRequestCancelled)),
                None,
                has_result,
            ),
            (GrpcPhase::Draining { context, outcome, response }, GrpcEvent::Drained) => (
                self.at(GrpcPhase::Ending { outcome, response }),
                one(Action::EndRequest { context }),
            ),
            (GrpcPhase::Ending { outcome, response }, GrpcEvent::Ended(ended)) => {
                let result = if ended is Err {
                    ended
                } else {
                    outcome
                };
                (
                    self.at(GrpcPhase::Finished { began: true, result, response }),
                    request_end(true, result is Ok),
                )
            },
            _ => (self, Seq::empty()),
        }
    }

    fn leave_with(
        has_result: bool,
        context: MessageContext,
        outcome: HandlerResult<(), X>,
        response: Option<Res>,
        actions: &mut Vec<Action<Req, (), ()>>,
    ) -> (phase: GrpcPhase<Req, Res, X>)
        ensures
            phase == (if has_result {
                GrpcPhase::Draining::<Req, Res, X> { context, outcome, response }
            } else {
                GrpcPhase::Ending { outcome, response }
            }),
            final(actions)@ == old(actions)@ + (if has_result {
                three(
                    Action::<Req, (), ()>::Forget,
                    Action::Record(Metric::PendingDown),
                    Action::Drain,
                )
            } else {
                one(Action::<Req, (), ()>::EndRequest { context })
            }),
    {
        if has_result {
            actions.push(Action::Forget);
            actions.push(Action::Record(Metric::PendingDown));
            actions.push(Action::Drain);
            assert(actions@ =~= old(actions)@ + three(
                Action::<Req, (), ()>::Forget,
                Action::Record(Metric::PendingDown),
                Action::Drain,
            ));
            GrpcPhase::Draining { context, outcome, response }
        } else {
            actions.push(Action::EndRequest { context });
            assert(actions@ =~= old(actions)@ + one(
                Action::<Req, (), ()>::EndRequest { context },
            ));
            GrpcPhase::Ending { outcome, response }
        }
    }

    /// Opens a request: `begin_request` runs first. A stream of requests begins
    /// without one.
    pub fn open(mode: GrpcMode, context: MessageContext, request: Option<Req>) -> (opened: (
        GrpcRequest<Req, Res, X>,
        Vec<Action<Req, (), ()>>,
    ))
        ensures
            opened.0 == (GrpcRequest::<Req, Res, X> {
                mode,
                phase: GrpcPhase::Beginning { request },
            }),
            opened.1@ == one(Action::<Req, (), ()>::BeginRequest { context }),
    {
        let mut actions: Vec<Action<Req, (), ()>> = Vec::new();
        actions.push(Action::BeginRequest { context });
        (GrpcRequest { mode, phase: GrpcPhase::Beginning { request } }, actions)
    }

    /// Takes the next event and says what the driver has to do. `has_result` tells
    /// whether results come back to the input by now.
    pub fn step(self, event: GrpcEvent<Req, Res, X>, has_result: bool) -> (outcome: (
        GrpcRequest<Req, Res, X>,
        Vec<Action<Req, (), ()>>,
    ))
        ensures
            outcome.0 == self.next(event, has_result).0,
            outcome.1@ == self.next(event, has_result).1,
    {
        let ghost start = self;
        let ghost given = event;
        let mode = self.mode;
        let mut actions: Vec<Action<Req, (), ()>> = Vec::new();
        let phase = match (self.phase, event) {
            (
                GrpcPhase::Beginning { request },
                GrpcEvent::Begun { begun: Ok(context), registered },
            ) => {
                actions.push(Action::Record(Metric::ActiveUp));
                if has_result && !registered {
                    actions.push(Action::EndRequest { context });
                    GrpcPhase::Rejecting
                } else {
                    if has_result {
                        actions.push(Action::Record(Metric::PendingUp));
                    }
                    match request {
                        Some(value) => {
                            actions.push(
                                Action::ConsumeMessage { context: context.clone(), value },
                            );
                            GrpcPhase::Consuming { context }
                        },
                        None => {
                            actions.push(Action::Receive);
                            GrpcPhase::Reading { context }
                        },
                    }
                }
            },
            (GrpcPhase::Beginning { .. }, GrpcEvent::Begun { begun: Err(error), .. }) => {
                actions.push(Action::Record(Metric::BeginRequestFailed));
                GrpcPhase::Finished { began: false, result: Err(error), response: None }
            },
            (GrpcPhase::Rejecting, GrpcEvent::Ended(_)) => {
                push_request_end(&mut actions, true, false);
                GrpcPhase::Finished {
                    began: true,
                    result: Err(HandlerError::Fault(Fault::GrpcDuplicateStream)),
                    response: None,
                }
            },
            (GrpcPhase::Consuming { .. }, GrpcEvent::Consumed(Ok(context))) => {
                if mode == GrpcMode::ClientStreaming {
                    actions.push(Action::Receive);
                    GrpcPhase::Reading { context }
                } else {
                    actions.push(Action::Eof { context: context.clone() });
                    GrpcPhase::AtEof { context }
                }
            },
            (GrpcPhase::Consuming { context }, GrpcEvent::Consumed(Err(error))) => {
                Self::leave_with(has_result, context, Err(error), None, &mut actions)
            },
            (GrpcPhase::Reading { context }, GrpcEvent::Received(Some(Ok(value)))) => {
                actions.push(Action::ConsumeMessage { context: context.clone(), value });
                GrpcPhase::Consuming { context }
            },
            (GrpcPhase::Reading { context }, GrpcEvent::Received(Some(Err(error)))) => {
                Self::leave_with(has_result, context, Err(error), None, &mut actions)
            },
            (GrpcPhase::Reading { context }, GrpcEvent::Received(None)) => {
                actions.push(Action::Eof { context: context.clone() });
                GrpcPhase::AtEof { context }
            },
            (GrpcPhase::AtEof { context }, GrpcEvent::EofHandled) => {
                if !has_result {
                    Self::leave_with(has_result, context, Ok(()), None, &mut actions)
                } else {
                    if mode == GrpcMode::ServerStreaming {
                        actions.push(Action::AwaitDone);
                    } else {
                        actions.push(Action::AwaitResponse);
                    }
                    GrpcPhase::Waiting { context }
                }
            },
            (GrpcPhase::Waiting { context }, GrpcEvent::Answered(Ok(response))) if mode
                != GrpcMode::ServerStreaming => {
                Self::leave_with(has_result, context, Ok(()), Some(response), &mut actions)
            },
            (GrpcPhase::Waiting { context }, GrpcEvent::Answered(Err(error))) if mode
                != GrpcMode::ServerStreaming => {
                Self::leave_with(has_result, context, Err(error), None, &mut actions)
            },
            (GrpcPhase::Waiting { context }, GrpcEvent::Done) if mode
                == GrpcMode::ServerStreaming => {
                Self::leave_with(has_result, context, Ok(()), None, &mut actions)
            },
            (GrpcPhase::Waiting { context }, GrpcEvent::Cancelled) if mode
                == GrpcMode::ServerStreaming => {
                Self::leave_with(
                    has_result,
                    context,
                    Err(HandlerError::Fault(Fault::GrpcRequestCancelled)),
                    None,
                    &mut actions,
                )
            },
            (GrpcPhase::Draining { context, outcome, response }, GrpcEvent::Drained) => {
                actions.push(Action::EndRequest { context });
                GrpcPhase::Ending { outcome, response }
            },
            (GrpcPhase::Ending { outcome, response }, GrpcEvent::Ended(ended)) => {
                let result = match ended {
                    Err(error) => Err(error),
                    Ok(_) => outcome,
                };
                let ok: bool = succeeded(&result);
                push_request_end(&mut actions, true, ok);
                GrpcPhase::Finished { began: true, result, response }
            },
            (phase, _) => phase,
        };
        assert(actions@ =~= start.next(given, has_result).1);
        (GrpcRequest { mode, phase }, actions)
    }

    /// The fault that `end_request` gets for a request that was turned away, while it
    /// runs.
    pub fn rejection(&self) -> (fault: Option<Fault>)
        ensures
            fault == (if self.phase is Rejecting {
                Some(Fault::GrpcDuplicateStream)
            } else {
                None
            }),
    {
        match &self.phase {
            GrpcPhase::Rejecting => Some(Fault::GrpcDuplicateStream),
            _ => None,
        }
    }

    /// The result that `end_request` gets for a request that was served, while it runs.
    pub fn outcome(&self) -> (outcome: Option<&HandlerResult<(), X>>)
        ensures
            match outcome {
                Some(found) => self.phase matches GrpcPhase::Ending { outcome: o, .. } && o == *found,
                None => !(self.phase is Ending),
            },
    {
        match &self.phase {
            GrpcPhase::Ending { outcome, .. } => Some(outcome),
            _ => None,
        }
    }
}

/// Takes the one response of a request that answers once.
pub struct UnarySender<Res> {
    value: Option<Res>,
}

impl<Res> UnarySender<Res> {
    /// The response that was sent and not yet taken.
    pub closed spec fn spec_value(&self) -> Option<Res> {
        self.value
    }

    pub fn new() -> (sender: UnarySender<Res>)
        ensures
            sender.spec_value() is None,
    {
        UnarySender { value: None }
    }

    /// Sends the response. A second one is refused while the first is not taken.
    pub fn send<X>(&mut self, value: Res) -> (result: HandlerResult<(), X>)
        ensures
            match old(self).spec_value() {
                Some(_) => {
                    &&& result == Err::<(), _>(
                        HandlerError::<X>::Fault(Fault::GrpcUnaryAlreadySent),
                    )
                    &&& final(self).spec_value() == old(self).spec_value()
                },
                None => result is Ok && final(self).spec_value() == Some(value),
            },
    {
        if self.value.is_some() {
            return Err(HandlerError::Fault(Fault::GrpcUnaryAlreadySent));
        }
        self.value = Some(value);
        Ok(())
    }

    pub fn take(&mut self) -> (value: Option<Res>)
        ensures
            value == old(self).spec_value(),
            final(self).spec_value() is None,
    {
        self.value.take()
    }

    /// The response if it was sent; the fault of a cancelled request if it was not;
    /// nothing as long as both are open.
    pub fn receive<X>(&mut self, cancelled: bool) -> (received: Option<HandlerResult<Res, X>>)
        ensures
            final(self).spec_value() is None,
            received == (match old(self).spec_value() {
                Some(value) => Some(Ok::<Res, HandlerError<X>>(value)),
                None => if cancelled {
                    Some(Err(HandlerError::<X>::Fault(Fault::GrpcUnaryCancelled)))
                } else {
                    None
                },
            }),
    {
        match self.value.take() {
            Some(value) => Some(Ok(value)),
            None => if cancelled {
                Some(Err(HandlerError::Fault(Fault::GrpcUnaryCancelled)))
            } else {
                None
            },
        }
    }
}

/// What the peer of a request that answers once gets: the error of a failed request;
/// else the response that was waited for, or one that was sent without being waited
/// for, or the default.
pub fn unary_reply<Res: Default, X>(
    result: HandlerResult<(), X>,
    response: Option<Res>,
    sender: &mut UnarySender<Res>,
) -> (reply: HandlerResult<Res, X>)
    ensures
        match result {
            Err(error) => {
                &&& reply == Err::<Res, _>(error)
                &&& final(sender).spec_value() == old(sender).spec_value()
            },
            Ok(_) => reply matches Ok(value) && (match (response, old(sender).spec_value()) {
                (Some(awaited), _) => value == awaited,
                (None, Some(sent)) => value == sent,
                (None, None) => call_ensures(Res::default, (), value),
            }) && final(sender).spec_value() == (if response is Some {
                old(sender).spec_value()
            } else {
                None
            }),
        },
{
    match result {
        Err(error) => Err(error),
        Ok(_) => match response {
            Some(value) => Ok(value),
            None => match sender.take() {
                Some(value) => Ok(value),
                None => Ok(Res::default()),
            },
        },
    }
}

/// Where a request stands after some events, and all it asked for on the way. With each
/// event comes whether results come back to the input by then.
pub open spec fn run<Req, Res, X>(
    request: GrpcRequest<Req, Res, X>,
    events: Seq<(GrpcEvent<Req, Res, X>, bool)>,
) -> (GrpcRequest<Req, Res, X>, Seq<Action<Req, (), ()>>)
    decreases events.len(),
{
    if events.len() == 0 {
        (request, Seq::empty())
    } else {
        let before = run(request, events.drop_last());
        let after = before.0.next(events.last().0, events.last().1);
        (after.0, before.1 + after.1)
    }
}

/// An input that has a result stream keeps it.
pub open spec fn results_persist<Req, Res, X>(events: Seq<(GrpcEvent<Req, Res, X>, bool)>) -> bool {
    forall|i: int, j: int|
        0 <= i <= j < events.len() && (#[trigger] events[i]).1 ==> (#[trigger] events[j]).1
}

/// Whether results came back to the input at the last of some events.
pub open spec fn results_shown<Req, Res, X>(events: Seq<(GrpcEvent<Req, Res, X>, bool)>) -> bool {
    events.len() > 0 && events.last().1
}

/// What a request has asked for by the time it stands where it stands. `shown` tells
/// whether results came back to the input at the last event.
pub open spec fn accounted<Req, Res, X>(
    request: GrpcRequest<Req, Res, X>,
    actions: Seq<Action<Req, (), ()>>,
    shown: bool,
) -> bool {
    let failed = request.phase matches GrpcPhase::Finished { began: false, .. };
    let begun = !(request.phase is Beginning) && !failed;
    let over = request.phase matches GrpcPhase::Finished { began: true, .. };
    let ok = request.phase matches GrpcPhase::Finished { began: true, result: Ok(_), .. };
    let entered = tally(actions, Kind::Record(Metric::PendingUp));
    let left = tally(actions, Kind::Record(Metric::PendingDown));
    let eof = tally(actions, Kind::Eof);
    &&& request.phase matches GrpcPhase::Finished { began: false, result, .. } ==> result is Err
    &&& tally(actions, Kind::Record(Metric::ActiveUp)) == (if begun { 1nat } else { 0 })
    &&& tally(actions, Kind::EndRequest) == (if over || request.phase is Ending
        || request.phase is Rejecting {
        1nat
    } else {
        0
    })
    &&& tally(actions, Kind::Record(Metric::ActiveDown)) == (if over { 1nat } else { 0 })
    &&& tally(actions, Kind::Record(Metric::MessagesTotal)) == (if ok { 1nat } else { 0 })
    &&& tally(actions, Kind::Record(Metric::RequestError)) == (if over && !ok { 1nat } else { 0 })
    &&& tally(actions, Kind::Record(Metric::BeginRequestFailed)) == (if failed {
        1nat
    } else {
        0
    })
    &&& entered <= 1
    &&& left <= 1
    &&& left == tally(actions, Kind::Forget)
    &&& entered == 1 ==> shown
    &&& request.phase is Draining || request.phase is Ending || over ==> left >= entered
    &&& request.phase is Draining ==> left == 1
    &&& !(request.phase is Draining || request.phase is Ending || over) ==> left == 0
    &&& request.phase is Rejecting || request.phase is Beginning || failed ==> entered == 0
    &&& eof <= 1
    &&& request.phase is Beginning || request.phase is Consuming || request.phase is Reading
        || request.phase is Rejecting ==> eof == 0
    &&& request.phase is AtEof || request.phase is Waiting || ok ==> eof == 1
    &&& request.phase matches GrpcPhase::Draining { outcome: Ok(_), .. } ==> eof == 1
    &&& request.phase matches GrpcPhase::Ending { outcome: Ok(_), .. } ==> eof == 1
}

proof fn lemma_persist_front<Req, Res, X>(events: Seq<(GrpcEvent<Req, Res, X>, bool)>)
    requires
        results_persist(events),
        events.len() > 0,
    ensures
        results_persist(events.drop_last()),
        results_shown(events.drop_last()) ==> events.last().1,
{
    let front = events.drop_last();
    assert forall|i: int, j: int|
        0 <= i <= j < front.len() && (#[trigger] front[i]).1 implies (#[trigger] front[j]).1 by {
        assert(events[i].1 ==> events[j].1);
    }
    if front.len() > 0 {
        assert(front.last() == events[events.len() - 2]);
        assert(events[events.len() - 2].1 ==> events[events.len() - 1].1);
    }
}

proof fn lemma_step_accounted<Req, Res, X>(
    request: GrpcRequest<Req, Res, X>,
    actions: Seq<Action<Req, (), ()>>,
    event: GrpcEvent<Req, Res, X>,
    shown: bool,
    has_result: bool,
)
    requires
        accounted(request, actions, shown),
        shown ==> has_result,
    ensures
        accounted(
            request.next(event, has_result).0,
            actions + request.next(event, has_result).1,
            has_result,
        ),
{
    broadcast use group_tally;

}

/// Whatever the driver reports, and in whatever order: a request that began is active
/// from then to its end, ends exactly once and counts once, as a message or as an
/// error. One that was entered as pending leaves the pending ones exactly once,
/// before its end; one that was turned away leaves them alone. One that was not entered
/// takes out what stands under its stream id at most once, where the input has got a
/// result stream meanwhile. `eof` runs at most once, and a success means that it ran.
pub proof fn law_request_accounting<Req, Res, X>(
    mode: GrpcMode,
    request: Option<Req>,
    events: Seq<(GrpcEvent<Req, Res, X>, bool)>,
)
    requires
        results_persist(events),
    ensures
        ({
            let start = GrpcRequest::<Req, Res, X> {
                mode,
                phase: GrpcPhase::Beginning { request },
            };
            accounted(run(start, events).0, run(start, events).1, results_shown(events))
        }),
    decreases events.len(),
{
    let start = GrpcRequest::<Req, Res, X> {
        mode,
        phase: GrpcPhase::Beginning { request },
    };
    if events.len() == 0 {
        broadcast use group_tally;

    } else {
        lemma_persist_front(events);
        law_request_accounting::<Req, Res, X>(mode, request, events.drop_last());
        let before = run(start, events.drop_last());
        lemma_step_accounted(
            before.0,
            before.1,
            events.last().0,
            results_shown(events.drop_last()),
            events.last().1,
        );
    }
}

/// A failure of `end_request` fails the request, whatever came before it.
pub proof fn law_end_failure_prevails<Req, Res, X>(
    request: GrpcRequest<Req, Res, X>,
    error: HandlerError<X>,
    has_result: bool,
)
    requires
        request.phase is Ending,
    ensures
        request.next(GrpcEvent::Ended(Err(error)), has_result).0.phase matches GrpcPhase::Finished {
            result,
            ..
        } && result == Err::<(), HandlerError<X>>(error),
{
}

proof fn lemma_step_ends_last<Req, Res, X>(
    request: GrpcRequest<Req, Res, X>,
    actions: Seq<Action<Req, (), ()>>,
    event: GrpcEvent<Req, Res, X>,
    shown: bool,
    has_result: bool,
)
    requires
        accounted(request, actions, shown),
        shown ==> has_result,
        tally(actions, Kind::Record(Metric::PendingUp)) == 1 || request.phase is Beginning
            ==> follows(actions, Kind::EndRequest, Kind::Forget),
    ensures
        ({
            let (after, asked) = request.next(event, has_result);
            tally(actions + asked, Kind::Record(Metric::PendingUp)) == 1
                || after.phase is Beginning ==> follows(
                actions + asked,
                Kind::EndRequest,
                Kind::Forget,
            )
        }),
{
    broadcast use {group_tally, follows_push};

    let (after, asked) = request.next(event, has_result);
    match (request.phase, event) {
        (GrpcPhase::Draining { context, .. }, GrpcEvent::Drained) => {
            assert(actions + asked =~= actions.push(Action::EndRequest { context }));
        },
        _ => {
            if tally(asked, Kind::EndRequest) == 0 && (tally(
                actions,
                Kind::Record(Metric::PendingUp),
            ) == 1 || request.phase is Beginning) {
                lemma_follows_add(actions, asked, Kind::EndRequest, Kind::Forget);
            }
        },
    }
}

/// A request that was entered as pending leaves the pending ones before `end_request`
/// runs: no result can reach a request that is ending.
pub proof fn law_pending_left_before_end<Req, Res, X>(
    mode: GrpcMode,
    request: Option<Req>,
    events: Seq<(GrpcEvent<Req, Res, X>, bool)>,
)
    requires
        results_persist(events),
    ensures
        ({
            let start = GrpcRequest::<Req, Res, X> {
                mode,
                phase: GrpcPhase::Beginning { request },
            };
            let (after, actions) = run(start, events);
            tally(actions, Kind::Record(Metric::PendingUp)) == 1 || after.phase is Beginning
                ==> follows(actions, Kind::EndRequest, Kind::Forget)
        }),
    decreases events.len(),
{
    let start = GrpcRequest::<Req, Res, X> {
        mode,
        phase: GrpcPhase::Beginning { request },
    };
    if events.len() == 0 {
        broadcast use follows_empty;

    } else {
        lemma_persist_front(events);
        law_pending_left_before_end::<Req, Res, X>(mode, request, events.drop_last());
        law_request_accounting::<Req, Res, X>(mode, request, events.drop_last());
        let before = run(start, events.drop_last());
        lemma_step_ends_last(
            before.0,
            before.1,
            events.last().0,
            results_shown(events.drop_last()),
            events.last().1,
        );
    }
}

/// Whether a request leaves with an outcome and a response: `end_request` runs with them
/// next, once the results that are being delivered are through.
pub open spec fn leaves_with<Req, Res, X>(
    request: GrpcRequest<Req, Res, X>,
    outcome: HandlerResult<(), X>,
    response: Option<Res>,
) -> bool {
    match request.phase {
        GrpcPhase::Draining { outcome: o, response: r, .. } => o == outcome && r == response,
        GrpcPhase::Ending { outcome: o, response: r } => o == outcome && r == response,
        _ => false,
    }
}

/// A request leaves with what it came to, as it was reported: the error of a failed
/// `consume_message`, of its stream or of the wait for its response; a success once the
/// stream is through and, where results come back, the response is there or the request
/// is done. From then on neither a request nor `eof` nor a response is waited for, and
/// what `end_request` returns replaces the outcome only if it is an error. Nothing else
/// ends a request.
pub proof fn law_request_ends_with_what_was_reported<Req, Res, X>(
    request: GrpcRequest<Req, Res, X>,
    event: GrpcEvent<Req, Res, X>,
    has_result: bool,
)
    ensures
        ({
            let (after, asked) = request.next(event, has_result);
            let streams = request.mode == GrpcMode::ServerStreaming;
            let over = |result: HandlerResult<(), X>, response: Option<Res>|
                after.phase == (GrpcPhase::Finished::<Req, Res, X> {
                    began: true,
                    result,
                    response,
                });
            &&& after.mode == request.mode
            &&& match (request.phase, event) {
                (GrpcPhase::Beginning { .. }, GrpcEvent::Begun { begun: Err(error), .. }) => {
                    &&& after.phase == (GrpcPhase::Finished::<Req, Res, X> {
                        began: false,
                        result: Err(error),
                        response: None,
                    })
                    &&& asked == one(
                        Action::<Req, (), ()>::Record(Metric::BeginRequestFailed),
                    )
                },
                (
                    GrpcPhase::Beginning { .. },
                    GrpcEvent::Begun { begun: Ok(context), registered: false },
                ) => has_result ==> {
                    &&& after.phase is Rejecting
                    &&& asked == two(
                        Action::<Req, (), ()>::Record(Metric::ActiveUp),
                        Action::EndRequest { context },
                    )
                },
                (GrpcPhase::Consuming { .. }, GrpcEvent::Consumed(Err(error))) => leaves_with(
                    after,
                    Err(error),
                    None,
                ),
                (GrpcPhase::Reading { .. }, GrpcEvent::Received(Some(Err(error)))) => leaves_with(
                    after,
                    Err(error),
                    None,
                ),
                (GrpcPhase::AtEof { .. }, GrpcEvent::EofHandled) => if has_result {
                    after.phase is Waiting
                } else {
                    leaves_with(after, Ok(()), None)
                },
                (GrpcPhase::Waiting { .. }, GrpcEvent::Answered(Ok(response))) => if streams {
                    after == request
                } else {
                    leaves_with(after, Ok(()), Some(response))
                },
                (GrpcPhase::Waiting { .. }, GrpcEvent::Answered(Err(error))) => if streams {
                    after == request
                } else {
                    leaves_with(after, Err(error), None)
                },
                (GrpcPhase::Waiting { .. }, GrpcEvent::Done) => if streams {
                    leaves_with(after, Ok(()), None)
                } else {
                    after == request
                },
                (GrpcPhase::Waiting { .. }, GrpcEvent::Cancelled) => if streams {
                    leaves_with(
                        after,
                        Err(HandlerError::Fault(Fault::GrpcRequestCancelled)),
                        None,
                    )
                } else {
                    after == request
                },
                (GrpcPhase::Draining { outcome, response, .. }, GrpcEvent::Drained) => {
                    after.phase == (GrpcPhase::Ending::<Req, Res, X> { outcome, response })
                },
                (GrpcPhase::Ending { outcome, response }, GrpcEvent::Ended(Ok(_))) => over(
                    outcome,
                    response,
                ),
                (GrpcPhase::Ending { response, .. }, GrpcEvent::Ended(Err(error))) => over(
                    Err(error),
                    response,
                ),
                (GrpcPhase::Rejecting, GrpcEvent::Ended(_)) => over(
                    Err(HandlerError::Fault(Fault::GrpcDuplicateStream)),
                    None,
                ),
                (
                    GrpcPhase::Draining { .. } | GrpcPhase::Ending { .. } | GrpcPhase::Rejecting
                    | GrpcPhase::Finished { .. },
                    _,
                ) => after == request && asked.len() == 0,
                _ => {
                    &&& !(after.phase is Draining)
                    &&& !(after.phase is Ending)
                    &&& !(after.phase is Rejecting)
                    &&& !(after.phase is Finished)
                },
            }
        }),
{
}

/// A request that leaves asks for nothing but its leaving: where results come back, to be
/// taken out of the pending ones and to have what is being delivered drained, and
/// `end_request` only after that; else for `end_request` at once. Either way
/// `end_request` gets the context that the request had.
pub proof fn law_leaving_comes_before_the_end<Req, Res, X>(
    request: GrpcRequest<Req, Res, X>,
    event: GrpcEvent<Req, Res, X>,
    has_result: bool,
)
    requires
        !(request.phase is Draining),
        !(request.phase is Ending),
    ensures
        ({
            let (after, asked) = request.next(event, has_result);
            let context = match request.phase {
                GrpcPhase::Consuming { context } => Some(context),
                GrpcPhase::Reading { context } => Some(context),
                GrpcPhase::AtEof { context } => Some(context),
                GrpcPhase::Waiting { context } => Some(context),
                _ => None,
            };
            &&& after.phase is Draining || after.phase is Ending ==> context is Some
            &&& after.phase is Draining ==> {
                &&& has_result
                &&& after.phase->Draining_context == context->0
                &&& asked == three(
                    Action::<Req, (), ()>::Forget,
                    Action::Record(Metric::PendingDown),
                    Action::Drain,
                )
                &&& after.next(GrpcEvent::Drained, has_result).1 == one(
                    Action::<Req, (), ()>::EndRequest { context: context->0 },
                )
            }
            &&& after.phase is Ending ==> {
                &&& !has_result
                &&& asked == one(Action::<Req, (), ()>::EndRequest { context: context->0 })
            }
        }),
{
}

/// A request that is over counts once by its result, whatever it came to, and its time
/// is always measured.
pub proof fn law_end_counts_the_result<Req, Res, X>(
    request: GrpcRequest<Req, Res, X>,
    event: GrpcEvent<Req, Res, X>,
    has_result: bool,
)
    requires
        request.phase is Ending || request.phase is Rejecting,
        event is Ended,
    ensures
        ({
            let (after, asked) = request.next(event, has_result);
            &&& after.phase matches GrpcPhase::Finished { began: true, result, .. } && forall|
                kind: Kind,
            |
                #[trigger] tally(asked, kind) == (match kind {
                    Kind::Record(Metric::ActiveDown) => 1nat,
                    Kind::Record(Metric::Duration) => 1nat,
                    Kind::Record(Metric::MessagesTotal) if result is Ok => 1nat,
                    Kind::Record(Metric::RequestError) if result is Err => 1nat,
                    _ => 0nat,
                })
        }),
{
    broadcast use group_tally;

}

/// A request that began is consumed under the context that it goes on with: the one that
/// `begin_request`, or the last `consume_message`, returned. Every request of a stream is
/// handed to the handler as it came, one after the other; `eof` runs when there are no
/// more, or after the only one. An event that it does not wait for changes nothing.
pub proof fn law_requests_are_consumed_in_turn<Req, Res, X>(
    request: GrpcRequest<Req, Res, X>,
    event: GrpcEvent<Req, Res, X>,
    has_result: bool,
)
    ensures
        ({
            let (after, asked) = request.next(event, has_result);
            let reads = request.mode == GrpcMode::ClientStreaming;
            let unchanged = after == request && asked.len() == 0;
            match (request.phase, event) {
                (
                    GrpcPhase::Beginning { request: first },
                    GrpcEvent::Begun { begun: Ok(context), registered },
                ) => registered || !has_result ==> {
                    &&& asked[0] == Action::<Req, (), ()>::Record(Metric::ActiveUp)
                    &&& tally(asked, Kind::Record(Metric::ActiveUp)) == 1
                    &&& tally(asked, Kind::Record(Metric::PendingUp)) == (if has_result {
                        1nat
                    } else {
                        0
                    })
                    &&& asked.len() == (if has_result {
                        3int
                    } else {
                        2
                    })
                    &&& match first {
                        Some(value) => {
                            &&& after.phase == (GrpcPhase::Consuming::<Req, Res, X> { context })
                            &&& asked.last() == (Action::<Req, (), ()>::ConsumeMessage {
                                context,
                                value,
                            })
                        },
                        None => {
                            &&& after.phase == (GrpcPhase::Reading::<Req, Res, X> { context })
                            &&& asked.last() == Action::<Req, (), ()>::Receive
                        },
                    }
                },
                (GrpcPhase::Beginning { .. }, GrpcEvent::Begun { .. }) => true,
                (GrpcPhase::Beginning { .. }, _) => unchanged,
                (GrpcPhase::Consuming { .. }, GrpcEvent::Consumed(Ok(context))) => if reads {
                    &&& after.phase == (GrpcPhase::Reading::<Req, Res, X> { context })
                    &&& asked == one(Action::<Req, (), ()>::Receive)
                } else {
                    &&& after.phase == (GrpcPhase::AtEof::<Req, Res, X> { context })
                    &&& asked == one(Action::<Req, (), ()>::Eof { context })
                },
                (GrpcPhase::Consuming { .. }, GrpcEvent::Consumed(Err(_))) => {
                    &&& tally(asked, Kind::Eof) == 0
                    &&& tally(asked, Kind::Receive) == 0
                    &&& tally(asked, Kind::ConsumeMessage) == 0
                },
                (GrpcPhase::Consuming { .. }, _) => unchanged,
                (GrpcPhase::Reading { context }, GrpcEvent::Received(Some(Ok(value)))) => {
                    &&& after.phase == (GrpcPhase::Consuming::<Req, Res, X> { context })
                    &&& asked == one(Action::<Req, (), ()>::ConsumeMessage { context, value })
                },
                (GrpcPhase::Reading { context }, GrpcEvent::Received(None)) => {
                    &&& after.phase == (GrpcPhase::AtEof::<Req, Res, X> { context })
                    &&& asked == one(Action::<Req, (), ()>::Eof { context })
                },
                (GrpcPhase::Reading { .. }, GrpcEvent::Received(Some(Err(_)))) => {
                    &&& tally(asked, Kind::Eof) == 0
                    &&& tally(asked, Kind::ConsumeMessage) == 0
                },
                (GrpcPhase::Reading { .. }, _) => unchanged,
                (GrpcPhase::AtEof { context }, GrpcEvent::EofHandled) => has_result ==> {
                    &&& after.phase == (GrpcPhase::Waiting::<Req, Res, X> { context })
                    &&& asked.len() == 1
                    &&& asked[0] is AwaitDone <==> request.mode == GrpcMode::ServerStreaming
                    &&& asked[0] is AwaitResponse <==> request.mode != GrpcMode::ServerStreaming
                },
                (GrpcPhase::AtEof { .. }, _) => unchanged,
                (
                    GrpcPhase::Waiting { .. },
                    GrpcEvent::Answered(_) | GrpcEvent::Done | GrpcEvent::Cancelled,
                ) => true,
                (GrpcPhase::Waiting { .. }, _) => unchanged,
                _ => true,
            }
        }),
{
    broadcast use group_tally;

}

/// How many requests the handler reported as consumed with success.
pub open spec fn consumed_well<Req, Res, X>(
    start: GrpcRequest<Req, Res, X>,
    events: Seq<(GrpcEvent<Req, Res, X>, bool)>,
) -> nat
    decreases events.len(),
{
    if events.len() == 0 {
        0
    } else {
        consumed_well(start, events.drop_last()) + if run(start, events.drop_last()).0.phase
            is Consuming && events.last().0 matches GrpcEvent::Consumed(Ok(_)) {
            1nat
        } else {
            0
        }
    }
}

/// What a request came to, once it did.
pub open spec fn outcome_of<Req, Res, X>(request: GrpcRequest<Req, Res, X>) -> Option<
    HandlerResult<(), X>,
> {
    match request.phase {
        GrpcPhase::Draining { outcome, .. } => Some(outcome),
        GrpcPhase::Ending { outcome, .. } => Some(outcome),
        GrpcPhase::Finished { result, .. } => Some(result),
        _ => None,
    }
}

/// Whatever the driver reports, and in whatever order: a request succeeds only if every
/// request that was handed to the handler was consumed with success, and `eof` ran after
/// that.
pub proof fn law_success_means_all_was_consumed<Req, Res, X>(
    mode: GrpcMode,
    request: Option<Req>,
    events: Seq<(GrpcEvent<Req, Res, X>, bool)>,
)
    ensures
        ({
            let start = GrpcRequest::<Req, Res, X> { mode, phase: GrpcPhase::Beginning { request } };
            let (after, actions) = run(start, events);
            let consumed = tally(actions, Kind::ConsumeMessage);
            let well = consumed_well(start, events);
            &&& well <= consumed
            &&& match outcome_of(after) {
                Some(Ok(_)) => consumed == well && tally(actions, Kind::Eof) == 1,
                Some(Err(_)) => true,
                None => {
                    &&& consumed == well + (if after.phase is Consuming {
                        1nat
                    } else {
                        0
                    })
                    &&& tally(actions, Kind::Eof) == (if after.phase is AtEof
                        || after.phase is Waiting {
                        1nat
                    } else {
                        0
                    })
                },
            }
        }),
    decreases events.len(),
{
    broadcast use group_tally;

    if events.len() > 0 {
        law_success_means_all_was_consumed::<Req, Res, X>(mode, request, events.drop_last());
    }
}

/// Whether an event reports an error.
pub open spec fn reports<Req, Res, X>(
    event: GrpcEvent<Req, Res, X>,
    error: HandlerError<X>,
) -> bool {
    match event {
        GrpcEvent::Begun { begun: Err(e), .. } => e == error,
        GrpcEvent::Consumed(Err(e)) => e == error,
        GrpcEvent::Received(Some(Err(e))) => e == error,
        GrpcEvent::Answered(Err(e)) => e == error,
        GrpcEvent::Ended(Err(e)) => e == error,
        _ => false,
    }
}

/// Whatever the driver reports, and in whatever order: a request that failed was told of
/// just that error, unless it was cancelled or turned away; and a response that goes to
/// the peer is one that was waited for.
pub proof fn law_result_was_reported<Req, Res, X>(
    mode: GrpcMode,
    request: Option<Req>,
    events: Seq<(GrpcEvent<Req, Res, X>, bool)>,
)
    ensures
        ({
            let start = GrpcRequest::<Req, Res, X> { mode, phase: GrpcPhase::Beginning { request } };
            let after = run(start, events).0;
            let response = match after.phase {
                GrpcPhase::Draining { response, .. } => response,
                GrpcPhase::Ending { response, .. } => response,
                GrpcPhase::Finished { response, .. } => response,
                _ => None,
            };
            &&& outcome_of(after) matches Some(Err(error)) ==> {
                ||| exists|i: int|
                    0 <= i < events.len() && reports((#[trigger] events[i]).0, error)
                ||| error == HandlerError::<X>::Fault(Fault::GrpcRequestCancelled)
                ||| error == HandlerError::<X>::Fault(Fault::GrpcDuplicateStream)
            }
            &&& response matches Some(value) ==> exists|i: int|
                0 <= i < events.len() && (#[trigger] events[i]).0 == GrpcEvent::<
                    Req,
                    Res,
                    X,
                >::Answered(Ok(value))
        }),
    decreases events.len(),
{
    let start = GrpcRequest::<Req, Res, X> { mode, phase: GrpcPhase::Beginning { request } };
    if events.len() > 0 {
        let front = events.drop_last();
        law_result_was_reported::<Req, Res, X>(mode, request, front);
        let before = run(start, front).0;
        let after = run(start, events).0;
        assert forall|i: int| 0 <= i < front.len() implies events[i] == #[trigger] front[i] by {}
        assert(events[events.len() - 1] == events.last());
        match outcome_of(after) {
            Some(Err(error)) => {
                if outcome_of(before) == Some(Err::<(), HandlerError<X>>(error)) {
                    if exists|i: int| 0 <= i < front.len() && reports(
                        (#[trigger] front[i]).0,
                        error,
                    ) {
                        let i = choose|i: int|
                            0 <= i < front.len() && reports((#[trigger] front[i]).0, error);
                        assert(reports(events[i].0, error));
                    }
                } else {
                    assert(reports(events[events.len() - 1].0, error) || error == HandlerError::<
                        X,
                    >::Fault(Fault::GrpcRequestCancelled) || error == HandlerError::<X>::Fault(
                        Fault::GrpcDuplicateStream,
                    ));
                }
            },
            _ => {},
        }
        let earlier = match before.phase {
            GrpcPhase::Draining { response, .. } => response,
            GrpcPhase::Ending { response, .. } => response,
            GrpcPhase::Finished { response, .. } => response,
            _ => None,
        };
        match earlier {
            Some(value) => {
                let i = choose|i: int|
                    0 <= i < front.len() && (#[trigger] front[i]).0 == GrpcEvent::<
                        Req,
                        Res,
                        X,
                    >::Answered(Ok(value));
                assert(events[i].0 == GrpcEvent::<Req, Res, X>::Answered(Ok(value)));
            },
            None => {},
        }
    }
}

} // verus!
