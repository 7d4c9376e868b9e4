//! The requests of HTTP, Kafka and local sources.
use vstd::prelude::*;

use crate::runtime::common::{law_only_the_stream_id_changes, MessageContext};
use crate::runtime::error::{Fault, HandlerError, HandlerResult};
use crate::runtime::request::{
    follows, follows_empty, follows_push, group_tally, group_under, lemma_follows_add, one,
    push_request_end, request_end, succeeded, tally, three, two, under, Action, Kind, Metric,
};
use crate::runtime::store::PendingTable;

verus! {

/// Which transport a request came through.
#[derive(Clone, Copy, Debug, PartialEq, Eq, Structural)]
pub enum SourceKind {
    Http,
    Kafka,
    Local,
}

/// The fault of a request that was cancelled while it waited for results.
pub open spec fn cancel_fault(kind: SourceKind) -> Fault {
    match kind {
        SourceKind::Http => Fault::HttpCancelledBeforeDone,
        SourceKind::Kafka => Fault::KafkaMessageCancelled,
        SourceKind::Local => Fault::LocalCancelledBeforeDone,
    }
}

/// How far a request has come.
pub enum SourcePhase<V, X> {
    /// `begin_request` is running.
    Beginning { value: V },
    /// `consume_message` is running.
    Consuming { context: MessageContext },
    /// The request waits to be done.
    Waiting { context: MessageContext },
    /// The request is no longer pending; results that are being delivered are
    /// awaited.
    Draining { context: MessageContext, outcome: HandlerResult<(), X>, cancelled: bool },
    /// Over. There is no result where `begin_request` failed.
    Finished { result: Option<HandlerResult<(), X>> },
}

/// What the driver reports.
pub enum SourceEvent<X> {
    /// `begin_request` returned the context to go on with, under its stream id.
    /// `has_result` tells whether results come back to the request, `registered`
    /// whether it could be entered as pending.
    Begun { begun: HandlerResult<MessageContext, X>, has_result: bool, registered: bool },
    /// `consume_message` returned.
    Consumed(HandlerResult<(), X>),
    /// The request is done.
    Done,
    /// The context of the request was cancelled.
    Cancelled,
    /// No result is being delivered any more. `done` tells whether the request is
    /// done by now.
    Drained { done: bool },
}

/// One request of a source. `has_result` tells whether results come back to it, which
/// is settled once `begin_request` returned.
pub struct SourceRequest<V, X> {
    pub kind: SourceKind,
    pub timed: bool,
    pub has_result: bool,
    pub phase: SourcePhase<V, X>,
}

/// What takes a request out of the pending ones.
pub open spec fn leave_pending<V>(kind: SourceKind) -> Seq<Action<V, (), ()>> {
    if kind == SourceKind::Kafka {
        three(Action::Record(Metric::PendingDown), Action::Forget, Action::Drain)
    } else {
        three(Action::Forget, Action::Record(Metric::PendingDown), Action::Drain)
    }
}

impl<V, X> SourceRequest<V, X> {
    pub open spec fn with_results(self, has_result: bool) -> SourceRequest<V, X> {
        SourceRequest { kind: self.kind, timed: self.timed, has_result, phase: self.phase }
    }

    pub open spec fn at(self, phase: SourcePhase<V, X>) -> SourceRequest<V, X> {
        SourceRequest {
            kind: self.kind,
            timed: self.timed,
            has_result: self.has_result,
            phase,
        }
    }

    /// `end_request` runs, then the metrics are updated.
    pub open spec fn ended(self, context: MessageContext, result: HandlerResult<(), X>) -> (
        SourceRequest<V, X>,
        Seq<Action<V, (), ()>>,
    ) {
        (
            self.at(SourcePhase::Finished { result: Some(result) }),
            one(Action::EndRequest { context }) + request_end(self.timed, result is Ok),
        )
    }

    /// A request with results leaves the pending ones before it ends.
    pub open spec fn leaving(
        self,
        context: MessageContext,
        result: HandlerResult<(), X>,
        cancelled: bool,
    ) -> (SourceRequest<V, X>, Seq<Action<V, (), ()>>) {
        if self.has_result {
            (
                self.at(SourcePhase::Draining { context, outcome: result, cancelled }),
                leave_pending(self.kind),
            )
        } else {
            self.ended(context, result)
        }
    }

    /// What an event leads to. An event that the phase does not wait for changes
    /// nothing.
    pub open spec fn next(self, event: SourceEvent<X>) -> (
        SourceRequest<V, X>,
        Seq<Action<V, (), ()>>,
    ) {
        match (self.phase, event) {
            (
                SourcePhase::Beginning { value },
                SourceEvent::Begun { begun: Ok(context), has_result, registered },
            ) => {
                let settled = self.with_results(has_result);
                if !has_result {
                    (
                        settled.at(SourcePhase::Consuming { context }),
                        two(
                            Action::Record(Metric::ActiveUp),
                            Action::ConsumeMessage { context, value },
                        ),
                    )
                } else if registered {
                    (
                        settled.at(SourcePhase::Consuming { context }),
                        three(
                            Action::Record(Metric::ActiveUp),
                            Action::Record(Metric::PendingUp),
                            Action::ConsumeMessage { context, value },
                        ),
                    )
                } else {
                    let end = settled.ended(
                        context,
                        Err(HandlerError::Fault(Fault::PendingDuplicate)),
                    );
                    (end.0, one(Action::Record(Metric::ActiveUp)) + end.1)
                }
            },
            (SourcePhase::Beginning { .. }, SourceEvent::Begun { begun: Err(_), .. }) => (
                self.at(SourcePhase::Finished { result: None }),
                one(Action::Record(Metric::BeginRequestFailed)),
            ),
            (SourcePhase::Consuming { context }, SourceEvent::Consumed(result)) => if result is Ok
                && self.has_result {
                (self.at(SourcePhase::Waiting { context }), one(Action::AwaitDone))
            } else {
                self.leaving(context, result, false)
            },
            (SourcePhase::Waiting { context }, SourceEvent::Done) => self.leaving(
                context,
                Ok(()),
                false,
            ),
            (SourcePhase::Waiting { context }, SourceEvent::Cancelled) => self.leaving(
                context,
                Err(HandlerError::Fault(cancel_fault(self.kind))),
                true,
            ),
            (
                SourcePhase::Draining { context, outcome, cancelled },
                SourceEvent::Drained { done },
            ) => if self.kind == SourceKind::Local && cancelled && done {
                self.ended(context, Ok(()))
            } else {
                self.ended(context, outcome)
            },
            _ => (self, Seq::empty()),
        }
    }

    /// Opens a request: `begin_request` runs first.
    pub fn open(
        kind: SourceKind,
        timed: bool,
        context: MessageContext,
        value: V,
    ) -> (opened: (SourceRequest<V, X>, Vec<Action<V, (), ()>>))
        ensures
            opened.0 == (SourceRequest::<V, X> {
                kind,
                timed,
                has_result: false,
                phase: SourcePhase::Beginning { value },
            }),
            opened.1@ == one(Action::<V, (), ()>::BeginRequest { context }),
    {
        let mut actions: Vec<Action<V, (), ()>> = Vec::new();
        actions.push(Action::BeginRequest { context });
        (
            SourceRequest {
                kind,
                timed,
                has_result: false,
                phase: SourcePhase::Beginning { value },
            },
            actions,
        )
    }

    fn end_with(
        timed: bool,
        context: MessageContext,
        result: HandlerResult<(), X>,
        actions: &mut Vec<Action<V, (), ()>>,
    ) -> (phase: SourcePhase<V, X>)
        ensures
            phase == (SourcePhase::Finished::<V, X> { result: Some(result) }),
            final(actions)@ == old(actions)@ + (one(
                Action::<V, (), ()>::EndRequest { context },
            ) + request_end(timed, result is Ok)),
    {
        let ok: bool = succeeded(&result);
        actions.push(Action::EndRequest { context });
        push_request_end(actions, timed, ok);
        assert(actions@ =~= old(actions)@ + (one(Action::<V, (), ()>::EndRequest { context })
            + request_end(timed, result is Ok)));
        SourcePhase::Finished { result: Some(result) }
    }

    fn leave_with(
        kind: SourceKind,
        timed: bool,
        has_result: bool,
        context: MessageContext,
        result: HandlerResult<(), X>,
        cancelled: bool,
        actions: &mut Vec<Action<V, (), ()>>,
    ) -> (phase: SourcePhase<V, X>)
        ensures
            phase == (if has_result {
                SourcePhase::Draining::<V, X> { context, outcome: result, cancelled }
            } else {
                SourcePhase::Finished { result: Some(result) }
            }),
            final(actions)@ == old(actions)@ + (if has_result {
                leave_pending::<V>(kind)
            } else {
                one(Action::<V, (), ()>::EndRequest { context }) + request_end(
                    timed,
                    result is Ok,
                )
            }),
    {
        if !has_result {
            return Self::end_with(timed, context, result, actions);
        }
        if kind == SourceKind::Kafka {
            actions.push(Action::Record(Metric::PendingDown));
            actions.push(Action::Forget);
        } else {
            actions.push(Action::Forget);
            actions.push(Action::Record(Metric::PendingDown));
        }
        actions.push(Action::Drain);
        assert(actions@ =~= old(actions)@ + leave_pending::<V>(kind));
        SourcePhase::Draining { context, outcome: result, cancelled }
    }

    /// Takes the next event and says what the driver has to do.
    pub fn step(self, event: SourceEvent<X>) -> (outcome: (
        SourceRequest<V, X>,
        Vec<Action<V, (), ()>>,
    ))
        ensures
            outcome.0 == self.next(event).0,
            outcome.1@ == self.next(event).1,
    {
        let ghost start = self;
        let ghost given = event;
        let kind = self.kind;
        let timed: bool = self.timed;
        let mut has_result: bool = self.has_result;
        let mut actions: Vec<Action<V, (), ()>> = Vec::new();
        let phase = match (self.phase, event) {
            (
                SourcePhase::Beginning { value },
                SourceEvent::Begun { begun: Ok(context), has_result: settled, registered },
            ) => {
                has_result = settled;
                actions.push(Action::Record(Metric::ActiveUp));
                if has_result && !registered {
                    Self::end_with(
                        timed,
                        context,
                        Err(HandlerError::Fault(Fault::PendingDuplicate)),
                        &mut actions,
                    )
                } else {
                    if has_result {
                        actions.push(Action::Record(Metric::PendingUp));
                    }
                    actions.push(Action::ConsumeMessage { context: context.clone(), value });
                    SourcePhase::Consuming { context }
                }
            },
            (SourcePhase::Beginning { .. }, SourceEvent::Begun { begun: Err(_), .. }) => {
                actions.push(Action::Record(Metric::BeginRequestFailed));
                SourcePhase::Finished { result: None }
            },
            (SourcePhase::Consuming { context }, SourceEvent::Consumed(result)) => {
                if succeeded(&result) && has_result {
                    actions.push(Action::AwaitDone);
                    SourcePhase::Waiting { context }
                } else {
                    Self::leave_with(kind, timed, has_result, context, result, false, &mut actions)
                }
            },
            (SourcePhase::Waiting { context }, SourceEvent::Done) => {
                Self::leave_with(kind, timed, has_result, context, Ok(()), false, &mut actions)
            },
            (SourcePhase::Waiting { context }, SourceEvent::Cancelled) => {
                let fault = match kind {
                    SourceKind::Http => Fault::HttpCancelledBeforeDone,
                    SourceKind::Kafka => Fault::KafkaMessageCancelled,
                    SourceKind::Local => Fault::LocalCancelledBeforeDone,
                };
                Self::leave_with(
                    kind,
                    timed,
                    has_result,
                    context,
                    Err(HandlerError::Fault(fault)),
                    true,
                    &mut actions,
                )
            },
            (
                SourcePhase::Draining { context, outcome, cancelled },
                SourceEvent::Drained { done },
            ) => {
                if kind == SourceKind::Local && cancelled && done {
                    Self::end_with(timed, context, Ok(()), &mut actions)
                } else {
                    Self::end_with(timed, context, outcome, &mut actions)
                }
            },
            (phase, _) => phase,
        };
        assert(actions@ =~= start.next(given).1);
        (SourceRequest { kind, timed, has_result, phase }, actions)
    }

    /// The result that `end_request` gets, once the request is over.
    pub fn result(&self) -> (result: Option<&HandlerResult<(), X>>)
        ensures
            match result {
                Some(r) => self.phase == (SourcePhase::Finished::<V, X> { result: Some(*r) }),
                None => !(self.phase matches SourcePhase::Finished { result: Some(_) }),
            },
    {
        match &self.phase {
            SourcePhase::Finished { result } => result.as_ref(),
            _ => None,
        }
    }
}

/// The context of a request under its stream id: its own, or the fresh one where it
/// has none.
pub open spec fn identified(context: MessageContext, fresh: String) -> MessageContext {
    if context.spec_stream_id() is Some {
        context
    } else {
        context.spec_with_stream_id(fresh)
    }
}

/// Gives a context a stream id where it has none.
pub fn identify(context: MessageContext, fresh: String) -> (named: (MessageContext, String))
    ensures
        named.0 == identified(context, fresh),
        named.0.spec_stream_id() == Some(named.1),
{
    let known: Option<String> = match context.stream_id() {
        Some(id) => Some(id.clone()),
        None => None,
    };
    match known {
        Some(id) => (context, id),
        None => (context.with_stream_id(fresh.clone()), fresh),
    }
}

/// The entry of a request: its stream id and, where it was entered as pending, its
/// token.
pub struct Entry {
    pub stream_id: String,
    pub token: Option<u64>,
}

/// What becomes of the pending requests when a request begins. One that replaces
/// takes the place of a request with the same stream id; one that does not is not
/// entered where it finds one, and leaves it as it is.
pub open spec fn entered(
    replaces: bool,
    has_result: bool,
    id: Seq<char>,
    before: PendingTable,
    after: PendingTable,
    token: Option<u64>,
) -> bool {
    let accepted = has_result && (replaces || !before@.contains_key(id));
    &&& after.wf()
    &&& token is Some <==> accepted
    &&& accepted ==> {
        &&& token == Some(before.spec_next())
        &&& after@ == before@.insert(id, before.spec_next())
        &&& after.spec_next() == before.spec_next() + 1
    }
    &&& !accepted ==> after == before
}

/// Reports to a request that `begin_request` returned, and enters the request as
/// pending where results come back to it. An HTTP request replaces one with the same
/// stream id.
pub fn begin_source_request<V, X>(
    request: SourceRequest<V, X>,
    pending: &mut PendingTable,
    begun: HandlerResult<MessageContext, X>,
    has_result: bool,
    fresh: String,
) -> (outcome: (SourceRequest<V, X>, Vec<Action<V, (), ()>>, Option<Entry>))
    requires
        old(pending).wf(),
        old(pending).spec_next() < u64::MAX,
        request.phase is Beginning,
    ensures
        match begun {
            Ok(context) => {
                let named = identified(context, fresh);
                &&& outcome.2 matches Some(entry) && {
                    &&& named.spec_stream_id() == Some(entry.stream_id)
                    &&& entered(
                        request.kind == SourceKind::Http,
                        has_result,
                        entry.stream_id@,
                        *old(pending),
                        *final(pending),
                        entry.token,
                    )
                    &&& outcome.0 == request.next(
                        SourceEvent::Begun {
                            begun: Ok(named),
                            has_result,
                            registered: entry.token is Some,
                        },
                    ).0
                    &&& outcome.1@ == request.next(
                        SourceEvent::Begun {
                            begun: Ok(named),
                            has_result,
                            registered: entry.token is Some,
                        },
                    ).1
                }
            },
            Err(error) => {
                &&& outcome.2 is None
                &&& *final(pending) == *old(pending)
                &&& outcome.0 == request.next(
                    SourceEvent::Begun { begun: Err(error), has_result, registered: false },
                ).0
                &&& outcome.1@ == request.next(
                    SourceEvent::Begun { begun: Err(error), has_result, registered: false },
                ).1
            },
        },
{
    match begun {
        Ok(context) => {
            let (named, stream_id) = identify(context, fresh);
            let token: Option<u64> = if !has_result {
                None
            } else if request.kind == SourceKind::Http {
                Some(pending.replace(stream_id.clone()))
            } else {
                pending.set(stream_id.clone())
            };
            let registered: bool = token.is_some();
            let (request, actions) = request.step(
                SourceEvent::Begun { begun: Ok(named), has_result, registered },
            );
            (request, actions, Some(Entry { stream_id, token }))
        },
        Err(error) => {
            let (request, actions) = request.step(
                SourceEvent::Begun { begun: Err(error), has_result, registered: false },
            );
            (request, actions, None)
        },
    }
}

/// Where a request stands after some events, and all it asked for on the way.
pub open spec fn run<V, X>(request: SourceRequest<V, X>, events: Seq<SourceEvent<X>>) -> (
    SourceRequest<V, X>,
    Seq<Action<V, (), ()>>,
)
    decreases events.len(),
{
    if events.len() == 0 {
        (request, Seq::empty())
    } else {
        let before = run(request, events.drop_last());
        let after = before.0.next(events.last());
        (after.0, before.1 + after.1)
    }
}

/// What a request has asked for by the time it stands where it stands.
pub open spec fn accounted<V, X>(
    request: SourceRequest<V, X>,
    actions: Seq<Action<V, (), ()>>,
) -> bool {
    let failed = request.phase == (SourcePhase::Finished::<V, X> { result: None });
    let begun = !(request.phase is Beginning) && !failed;
    let over = request.phase matches SourcePhase::Finished { result: Some(_) };
    let ok = request.phase matches SourcePhase::Finished { result: Some(Ok(_)) };
    let consumed = tally(actions, Kind::ConsumeMessage);
    let entered = tally(actions, Kind::Record(Metric::PendingUp));
    let left = tally(actions, Kind::Record(Metric::PendingDown));
    &&& consumed <= 1
    &&& request.phase is Beginning || failed ==> consumed == 0
    &&& request.phase is Consuming || request.phase is Waiting || request.phase is Draining || ok
        ==> consumed == 1
    &&& entered == (if request.has_result {
        consumed
    } else {
        0
    })
    &&& left == tally(actions, Kind::Forget)
    &&& left == (if over || request.phase is Draining {
        entered
    } else {
        0
    })
    &&& request.phase is Waiting || request.phase is Draining ==> request.has_result
    &&& tally(actions, Kind::Record(Metric::ActiveUp)) == (if begun { 1nat } else { 0 })
    &&& tally(actions, Kind::EndRequest) == (if over { 1nat } else { 0 })
    &&& tally(actions, Kind::Record(Metric::ActiveDown)) == (if over { 1nat } else { 0 })
    &&& tally(actions, Kind::Record(Metric::MessagesTotal)) == (if ok { 1nat } else { 0 })
    &&& tally(actions, Kind::Record(Metric::RequestError)) == (if over && !ok { 1nat } else { 0 })
    &&& tally(actions, Kind::Record(Metric::BeginRequestFailed)) == (if failed {
        1nat
    } else {
        0
    })
    &&& tally(actions, Kind::AwaitDone) <= 1
    &&& request.phase is Beginning || request.phase is Consuming ==> tally(
        actions,
        Kind::AwaitDone,
    ) == 0
    &&& request.phase is Waiting ==> tally(actions, Kind::AwaitDone) == 1
    &&& request.phase matches SourcePhase::Draining { outcome, cancelled, .. } ==> outcome is Ok
        || cancelled ==> tally(actions, Kind::AwaitDone) == 1
    &&& ok && request.has_result ==> tally(actions, Kind::AwaitDone) == 1
}

proof fn lemma_step_accounted<V, X>(
    request: SourceRequest<V, X>,
    actions: Seq<Action<V, (), ()>>,
    event: SourceEvent<X>,
)
    requires
        accounted(request, actions),
    ensures
        accounted(request.next(event).0, actions + request.next(event).1),
{
    broadcast use group_tally;

}

/// Whatever the driver reports, and in whatever order: a request that began is active
/// from then to its end, ends exactly once and counts once, as a message or as an
/// error. It is consumed at most once. One that was entered as pending leaves the
/// pending ones exactly once, before its end; one that was not leaves them alone. A
/// success with results means that the request was waited for.
pub proof fn law_request_accounting<V, X>(
    kind: SourceKind,
    timed: bool,
    value: V,
    events: Seq<SourceEvent<X>>,
)
    ensures
        ({
            let start = SourceRequest::<V, X> {
                kind,
                timed,
                has_result: false,
                phase: SourcePhase::Beginning { value },
            };
            accounted(run(start, events).0, run(start, events).1)
        }),
    decreases events.len(),
{
    let start = SourceRequest::<V, X> {
        kind,
        timed,
        has_result: false,
        phase: SourcePhase::Beginning { value },
    };
    if events.len() == 0 {
        broadcast use group_tally;

    } else {
        law_request_accounting::<V, X>(kind, timed, value, events.drop_last());
        let before = run(start, events.drop_last());
        lemma_step_accounted(before.0, before.1, events.last());
    }
}

/// A request that is cancelled while it waits fails, unless it is a local one that is
/// done by the time the results that were being delivered are through.
pub proof fn law_cancelled_request_fails<V, X>(
    request: SourceRequest<V, X>,
    context: MessageContext,
    done: bool,
)
    requires
        request.phase == (SourcePhase::Waiting::<V, X> { context }),
        request.has_result,
    ensures
        ({
            let drained = request.next(SourceEvent::Cancelled).0.next(
                SourceEvent::Drained { done },
            ).0;
            let expected: HandlerResult<(), X> = if request.kind == SourceKind::Local && done {
                Ok(())
            } else {
                Err(HandlerError::Fault(cancel_fault(request.kind)))
            };
            drained.phase == (SourcePhase::Finished::<V, X> { result: Some(expected) })
        }),
{
}

proof fn lemma_step_ends_last<V, X>(
    request: SourceRequest<V, X>,
    actions: Seq<Action<V, (), ()>>,
    event: SourceEvent<X>,
)
    requires
        accounted(request, actions),
        tally(actions, Kind::Record(Metric::PendingUp)) == 1 || request.phase is Beginning
            ==> follows(actions, Kind::EndRequest, Kind::Forget),
    ensures
        ({
            let (after, asked) = request.next(event);
            tally(actions + asked, Kind::Record(Metric::PendingUp)) == 1
                || after.phase is Beginning ==> follows(
                actions + asked,
                Kind::EndRequest,
                Kind::Forget,
            )
        }),
{
    broadcast use {group_tally, follows_push};

    let (after, asked) = request.next(event);
    match (request.phase, event) {
        (SourcePhase::Draining { context, .. }, SourceEvent::Drained { .. }) => {
            let end = one(Action::<V, (), ()>::EndRequest { context });
            let ok = after.phase matches SourcePhase::Finished { result: Some(Ok(_)) };
            let metrics = request_end::<V, (), ()>(request.timed, ok);
            if tally(actions, Kind::Record(Metric::PendingUp)) == 1 {
                assert(actions + end =~= actions.push(Action::EndRequest { context }));
                lemma_follows_add(actions + end, metrics, Kind::EndRequest, Kind::Forget);
                assert(actions + asked =~= actions + end + metrics);
            }
        },
        _ => {
            if tally(asked, Kind::EndRequest) == 0 && (tally(
                actions,
                Kind::Record(Metric::PendingUp),
            ) == 1 || request.phase is Beginning) {
                lemma_follows_add(actions, asked, Kind::EndRequest, Kind::Forget);
            }
        },
    }
}

/// A request that was entered as pending leaves the pending ones before `end_request`
/// runs: no result can reach a request that is ending.
pub proof fn law_pending_left_before_end<V, X>(
    kind: SourceKind,
    timed: bool,
    value: V,
    events: Seq<SourceEvent<X>>,
)
    ensures
        ({
            let start = SourceRequest::<V, X> {
                kind,
                timed,
                has_result: false,
                phase: SourcePhase::Beginning { value },
            };
            let (request, actions) = run(start, events);
            tally(actions, Kind::Record(Metric::PendingUp)) == 1 || request.phase is Beginning
                ==> follows(actions, Kind::EndRequest, Kind::Forget)
        }),
    decreases events.len(),
{
    let start = SourceRequest::<V, X> {
        kind,
        timed,
        has_result: false,
        phase: SourcePhase::Beginning { value },
    };
    if events.len() == 0 {
        broadcast use follows_empty;

    } else {
        law_pending_left_before_end::<V, X>(kind, timed, value, events.drop_last());
        law_request_accounting::<V, X>(kind, timed, value, events.drop_last());
        let before = run(start, events.drop_last());
        lemma_step_ends_last(before.0, before.1, events.last());
    }
}

/// What a request came to, once it did.
pub open spec fn outcome_of<V, X>(request: SourceRequest<V, X>) -> Option<HandlerResult<(), X>> {
    match request.phase {
        SourcePhase::Draining { outcome, .. } => Some(outcome),
        SourcePhase::Finished { result } => result,
        _ => None,
    }
}

/// The context that the handler gets throughout, once `begin_request` returned it.
pub open spec fn own_context<V, X>(request: SourceRequest<V, X>) -> Option<MessageContext> {
    match request.phase {
        SourcePhase::Consuming { context } => Some(context),
        SourcePhase::Waiting { context } => Some(context),
        SourcePhase::Draining { context, .. } => Some(context),
        _ => None,
    }
}

/// A request comes to what was reported: the error of a failed `consume_message`, whether
/// or not results come back; a success when `consume_message` succeeded and, where results
/// come back, the request is done; the fault of its transport when it was cancelled before.
/// A local request that is done by the time it has left succeeds after all, and that is the
/// only thing that changes what a request came to. Nothing else ends a request, and an event
/// that it does not wait for changes nothing.
pub proof fn law_request_comes_to_what_was_reported<V, X>(
    request: SourceRequest<V, X>,
    event: SourceEvent<X>,
)
    ensures
        ({
            let (after, asked) = request.next(event);
            let unchanged = after == request && asked.len() == 0;
            let cancelled: HandlerResult<(), X> = Err(
                HandlerError::Fault(
                    match request.kind {
                        SourceKind::Http => Fault::HttpCancelledBeforeDone,
                        SourceKind::Kafka => Fault::KafkaMessageCancelled,
                        SourceKind::Local => Fault::LocalCancelledBeforeDone,
                    },
                ),
            );
            let late = request.kind == SourceKind::Local;
            &&& after.kind == request.kind
            &&& after.timed == request.timed
            &&& !(request.phase is Beginning) ==> after.has_result == request.has_result
            &&& match (request.phase, event) {
                (SourcePhase::Beginning { .. }, SourceEvent::Begun { begun: Err(_), .. }) => {
                    &&& after.phase == (SourcePhase::Finished::<V, X> { result: None })
                    &&& asked == one(Action::<V, (), ()>::Record(Metric::BeginRequestFailed))
                },
                (
                    SourcePhase::Beginning { .. },
                    SourceEvent::Begun { begun: Ok(context), has_result, registered },
                ) => {
                    &&& after.has_result == has_result
                    &&& if has_result && !registered {
                        after.phase == (SourcePhase::Finished::<V, X> {
                            result: Some(Err(HandlerError::Fault(Fault::PendingDuplicate))),
                        })
                    } else {
                        after.phase == (SourcePhase::Consuming::<V, X> { context })
                    }
                },
                (SourcePhase::Consuming { context }, SourceEvent::Consumed(Ok(_))) => if
                request.has_result {
                    &&& after.phase == (SourcePhase::Waiting::<V, X> { context })
                    &&& asked == one(Action::<V, (), ()>::AwaitDone)
                } else {
                    outcome_of(after) == Some(Ok::<(), HandlerError<X>>(()))
                },
                (SourcePhase::Consuming { .. }, SourceEvent::Consumed(Err(error))) => outcome_of(
                    after,
                ) == Some(Err::<(), HandlerError<X>>(error)),
                (SourcePhase::Waiting { .. }, SourceEvent::Done) => outcome_of(after) == Some(
                    Ok::<(), HandlerError<X>>(()),
                ),
                (SourcePhase::Waiting { .. }, SourceEvent::Cancelled) => outcome_of(after) == Some(
                    cancelled,
                ),
                (
                    SourcePhase::Draining { outcome, cancelled: was, .. },
                    SourceEvent::Drained { done },
                ) => after.phase == (SourcePhase::Finished::<V, X> {
                    result: Some(
                        if late && was && done {
                            Ok(())
                        } else {
                            outcome
                        },
                    ),
                }),
                _ => unchanged,
            }
            &&& !(request.phase is Draining) && after.phase is Draining ==> (
            after.phase->Draining_cancelled <==> event is Cancelled)
        }),
{
    match event {
        SourceEvent::Consumed(Ok(nothing)) => {
            assert(nothing == ());
        },
        _ => {},
    }
}

/// A message is handed to the handler as it came, in the context that `begin_request`
/// returned, which the handler gets to the end. A request is active first of all and enters
/// the pending ones where results come back to it; one that was entered is taken out of
/// them, and what is being delivered to it is drained, before it ends; one to which no
/// results come back ends at once, without any of that.
pub proof fn law_message_is_served_under_its_context<V, X>(
    request: SourceRequest<V, X>,
    event: SourceEvent<X>,
)
    ensures
        ({
            let (after, asked) = request.next(event);
            &&& own_context(request) matches Some(context) ==> {
                &&& under(asked, context)
                &&& own_context(after) matches Some(later) ==> later == context
                &&& own_context(after) is None ==> after.phase is Finished
            }
            &&& match (request.phase, event) {
                (
                    SourcePhase::Beginning { value },
                    SourceEvent::Begun { begun: Ok(context), has_result, registered },
                ) => {
                    &&& under(asked, context)
                    &&& asked[0] == Action::<V, (), ()>::Record(Metric::ActiveUp)
                    &&& registered || !has_result ==> {
                        &&& asked.last() == (Action::<V, (), ()>::ConsumeMessage {
                            context,
                            value,
                        })
                        &&& asked.len() == (if has_result {
                            3int
                        } else {
                            2
                        })
                        &&& has_result ==> asked[1] == Action::<V, (), ()>::Record(
                            Metric::PendingUp,
                        )
                    }
                },
                _ => true,
            }
            &&& after.phase is Draining && !(request.phase is Draining) ==> {
                &&& request.has_result
                &&& forall|kind: Kind|
                    #[trigger] tally(asked, kind) == (match kind {
                        Kind::Forget => 1nat,
                        Kind::Record(Metric::PendingDown) => 1nat,
                        Kind::Drain => 1nat,
                        _ => 0nat,
                    })
                &&& asked.last() == Action::<V, (), ()>::Drain
            }
        }),
{
    broadcast use {group_tally, group_under};

}

/// A request that is over counts once, by its result, after `end_request`; its time is
/// observed if and only if it is measured.
pub proof fn law_end_counts_the_result<V, X>(request: SourceRequest<V, X>, event: SourceEvent<X>)
    requires
        !(request.phase is Finished),
    ensures
        ({
            let (after, asked) = request.next(event);
            match after.phase {
                SourcePhase::Finished { result: Some(result) } => {
                    &&& request.phase is Waiting || request.phase is Consuming ==> !request.has_result
                    &&& forall|kind: Kind|
                        #[trigger] tally(asked, kind) == (match kind {
                            Kind::EndRequest => 1nat,
                            Kind::Record(Metric::ActiveUp) if request.phase is Beginning => 1nat,
                            Kind::Record(Metric::ActiveDown) => 1nat,
                            Kind::Record(Metric::Duration) if request.timed => 1nat,
                            Kind::Record(Metric::MessagesTotal) if result is Ok => 1nat,
                            Kind::Record(Metric::RequestError) if result is Err => 1nat,
                            _ => 0nat,
                        })
                },
                _ => tally(asked, Kind::EndRequest) == 0,
            }
        }),
{
    broadcast use group_tally;

}

/// Whatever the driver reports, and in whatever order: a request that succeeded had its
/// message consumed with success, and was done where results came back to it; one that
/// failed was told of just that error, unless it was cancelled or turned away.
pub proof fn law_result_was_reported<V, X>(
    kind: SourceKind,
    timed: bool,
    value: V,
    events: Seq<SourceEvent<X>>,
)
    ensures
        ({
            let start = SourceRequest::<V, X> {
                kind,
                timed,
                has_result: false,
                phase: SourcePhase::Beginning { value },
            };
            let after = run(start, events).0;
            let well = exists|i: int|
                0 <= i < events.len() && (#[trigger] events[i] matches SourceEvent::Consumed(
                    Ok(_),
                ));
            let done = exists|i: int|
                0 <= i < events.len() && (#[trigger] events[i] is Done || events[i] matches
                    SourceEvent::Drained { done: true });
            &&& after.phase is Waiting ==> well
            &&& after.phase matches SourcePhase::Draining { cancelled: true, .. } ==> well
            &&& match outcome_of(after) {
                Some(Ok(_)) => well && (after.has_result ==> done),
                Some(Err(error)) => {
                    ||| exists|i: int|
                        0 <= i < events.len() && #[trigger] events[i] == SourceEvent::<
                            X,
                        >::Consumed(Err(error))
                    ||| error == HandlerError::<X>::Fault(Fault::PendingDuplicate)
                    ||| error == HandlerError::<X>::Fault(
                        match kind {
                            SourceKind::Http => Fault::HttpCancelledBeforeDone,
                            SourceKind::Kafka => Fault::KafkaMessageCancelled,
                            SourceKind::Local => Fault::LocalCancelledBeforeDone,
                        },
                    )
                },
                None => true,
            }
            &&& after.kind == kind
        }),
    decreases events.len(),
{
    let start = SourceRequest::<V, X> {
        kind,
        timed,
        has_result: false,
        phase: SourcePhase::Beginning { value },
    };
    if events.len() > 0 {
        let front = events.drop_last();
        law_result_was_reported::<V, X>(kind, timed, value, front);
        let before = run(start, front).0;
        let after = run(start, events).0;
        law_request_comes_to_what_was_reported(before, events.last());
        assert forall|i: int| 0 <= i < front.len() implies events[i] == #[trigger] front[i] by {}
        assert(events[events.len() - 1] == events.last());
        if exists|i: int|
            0 <= i < front.len() && (#[trigger] front[i] matches SourceEvent::Consumed(Ok(_))) {
            let i = choose|i: int|
                0 <= i < front.len() && (#[trigger] front[i] matches SourceEvent::Consumed(Ok(_)));
            assert(events[i] == front[i]);
        }
        if exists|i: int|
            0 <= i < front.len() && (#[trigger] front[i] is Done || front[i] matches
                SourceEvent::Drained { done: true }) {
            let i = choose|i: int|
                0 <= i < front.len() && (#[trigger] front[i] is Done || front[i] matches
                    SourceEvent::Drained { done: true });
            assert(events[i] == front[i]);
        }
        match outcome_of(after) {
            Some(Err(error)) => {
                if exists|i: int|
                    0 <= i < front.len() && #[trigger] front[i] == SourceEvent::<X>::Consumed(
                        Err(error),
                    ) {
                    let i = choose|i: int|
                        0 <= i < front.len() && #[trigger] front[i] == SourceEvent::<X>::Consumed(
                            Err(error),
                        );
                    assert(events[i] == front[i]);
                }
            },
            _ => {},
        }
    }
}

/// A request keeps the stream id that its context has, and gets the fresh one where it has
/// none; nothing else of the context changes.
pub proof fn law_stream_id_is_given_once(context: MessageContext, fresh: String, other: String)
    ensures
        identified(context, fresh).spec_stream_id() is Some,
        context.spec_stream_id() is Some ==> identified(context, fresh) == context,
        context.spec_stream_id() is None ==> identified(context, fresh).spec_stream_id() == Some(
            fresh,
        ),
        identified(context, fresh).same_but_stream(&context),
        identified(identified(context, fresh), other) == identified(context, fresh),
{
    law_only_the_stream_id_changes(context, fresh, fresh);
}

/// A request is pending under its stream id, with a token that no pending request has, if
/// and only if results come back to it and, unless it replaces, no other request was
/// pending there. The requests under other stream ids are not touched.
pub proof fn law_pending_requests_are_entered_once(
    replaces: bool,
    has_result: bool,
    id: Seq<char>,
    before: PendingTable,
    after: PendingTable,
    token: Option<u64>,
)
    requires
        before.wf(),
        entered(replaces, has_result, id, before, after, token),
    ensures
        token is Some <==> has_result && (replaces || !before@.contains_key(id)),
        token matches Some(own) ==> {
            &&& after@.contains_key(id) && after@[id] == own
            &&& forall|other: Seq<char>|
                #[trigger] before@.contains_key(other) ==> before@[other] != own
        },
        token is None ==> after@ == before@,
        forall|other: Seq<char>|
            other != id ==> (#[trigger] after@.contains_key(other) <==> before@.contains_key(other))
                && (before@.contains_key(other) ==> after@[other] == before@[other]),
{
    assert forall|other: Seq<char>| #[trigger] before@.contains_key(other) implies before@[other]
        < before.spec_next() by {
        before.lemma_token_given(other);
    }
}

/// `end_request` runs in the request's own context before the request is no longer active and
/// counts by its result.
pub proof fn law_end_request_comes_before_the_counts<V, X>(
    request: SourceRequest<V, X>,
    event: SourceEvent<X>,
)
    requires
        !(request.phase is Finished),
    ensures
        ({
            let (after, asked) = request.next(event);
            after.phase matches SourcePhase::Finished { result: Some(result) } ==> {
                let at = if request.phase is Beginning {
                    1int
                } else {
                    0
                };
                &&& asked[at] matches Action::EndRequest { context } && (own_context(request)
                    matches Some(own) ==> context == own)
                &&& asked[at + 1] == Action::<V, (), ()>::Record(Metric::ActiveDown)
                &&& asked.last() == Action::<V, (), ()>::Record(
                    if result is Ok {
                        Metric::MessagesTotal
                    } else {
                        Metric::RequestError
                    },
                )
            }
        }),
{
    reveal(request_end);
}

/// A Kafka request leaves the gauge of pending requests before it is taken out of them, any
/// other after; the results that are being delivered are drained after both.
pub proof fn law_leaving_is_in_order<V, X>(request: SourceRequest<V, X>, event: SourceEvent<X>)
    requires
        !(request.phase is Draining),
        request.next(event).0.phase is Draining,
    ensures
        ({
            let asked = request.next(event).1;
            &&& asked.len() == 3
            &&& asked[0] is Forget <==> request.kind != SourceKind::Kafka
            &&& asked[1] is Forget <==> request.kind == SourceKind::Kafka
            &&& asked[2] is Drain
        }),
{
}

} // verus!
