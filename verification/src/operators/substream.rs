//! Sub-streams: a part of the graph that is called like a function.
use vstd::prelude::*;

use crate::runtime::common::{Emission, MessageContext};
use crate::runtime::config::{RuntimeConfig, SubStreamConfig};
use crate::runtime::environment::{EnvironmentView, RuntimeEnvironment};
use crate::runtime::error::{RuntimeError, RuntimeErrorView, RuntimeResult};
use crate::runtime::stream::{attached, Stream};

verus! {

/// A part of the graph that is entered by `stream` and left by `source`.
pub struct SubStream<T, R> {
    stream: Stream<T>,
    source: Option<Stream<R>>,
    service_id: i32,
}

/// The service that the configuration gives stream `id`, if it knows the stream.
pub open spec fn service_of(config: RuntimeConfig, id: i32) -> Option<i32> {
    match config.spec_stream_config(id) {
        Some(found) => Some(found.spec_stream().id_service),
        None => None,
    }
}

impl<T, R> SubStream<T, R> {
    pub closed spec fn spec_stream(&self) -> Stream<T> {
        self.stream
    }

    pub closed spec fn spec_source(&self) -> Option<Stream<R>> {
        self.source
    }

    pub closed spec fn spec_service(&self) -> i32 {
        self.service_id
    }

    /// Adds a sub-stream without a source.
    pub fn new(config: &SubStreamConfig, environment: &mut RuntimeEnvironment) -> (sub: SubStream<
        T,
        R,
    >)
        ensures
            final(environment)@ == old(environment)@.with_stream(
                config.stream.id,
                config.stream.id,
                config.stream.name@,
                None,
            ).with_buildable(config.stream.id),
            sub.spec_stream().newest(final(environment)@),
            sub.spec_stream().spec_id() == config.stream.id,
            sub.spec_source() is None,
            sub.spec_service() == config.stream.id_service,
    {
        let stream: Stream<T> = Stream::new(&config.stream, environment);
        environment.register_runtime_buildable(config.stream.id);
        SubStream { stream, source: None, service_id: config.stream.id_service }
    }

    pub fn stream(&self) -> (stream: &Stream<T>)
        ensures
            *stream == self.spec_stream(),
    {
        &self.stream
    }

    /// Sets the stream that results come from: another stream of the same service. A
    /// second one is refused.
    pub fn set_source(&mut self, source: &Stream<R>, environment: &mut RuntimeEnvironment) -> (
        result: RuntimeResult<()>)
        requires
            old(self).spec_stream().belongs(old(environment)@),
            source.belongs(old(environment)@),
        ensures
            final(self).spec_stream() == old(self).spec_stream(),
            final(self).spec_service() == old(self).spec_service(),
            ({
                let graph = old(environment)@;
                let own = old(self).spec_stream();
                let foreign = source.spec_id() == own.spec_id() || service_of(
                    graph.config,
                    source.spec_id(),
                ) != Some(old(self).spec_service());
                if old(self).spec_source() is Some {
                    &&& result is Err
                    &&& result->Err_0@ == RuntimeErrorView::SourceAlreadySet(
                        graph.nodes[own.spec_node()].name,
                    )
                    &&& final(self).spec_source() == old(self).spec_source()
                    &&& final(environment)@ == graph
                } else if foreign {
                    &&& result is Err
                    &&& result->Err_0@ == RuntimeErrorView::InvalidConfiguration(
                        "SubStream result source must be a different stream in the same service"@,
                    )
                    &&& final(self).spec_source() is None
                    &&& final(environment)@ == graph
                } else {
                    &&& attached(
                        *source,
                        graph,
                        graph,
                        own.spec_id(),
                        final(environment)@,
                        result,
                    )
                    &&& final(self).spec_source() == (if result is Ok {
                        Some(*source)
                    } else {
                        None
                    })
                }
            }),
    {
        if self.source.is_some() {
            let stream = self.stream.name(environment);
            return Err(RuntimeError::SourceAlreadySet { stream });
        }
        let same_service: bool = match environment.runtime_config().stream_config(source.id()) {
            Some(config) => config.stream().id_service == self.service_id,
            None => false,
        };
        if source.id() == self.stream.id() || !same_service {
            return Err(
                RuntimeError::invalid(
                    "SubStream result source must be a different stream in the same service",
                ),
            );
        }
        match source.try_set_consumer(environment, self.stream.id()) {
            Ok(_) => {
                self.source = Some(*source);
                Ok(())
            },
            Err(error) => Err(error),
        }
    }

    /// Why the sub-stream cannot be called, if it cannot.
    pub open spec fn build_error(&self, graph: EnvironmentView) -> Option<RuntimeErrorView> {
        let node = graph.nodes[self.spec_stream().spec_node()];
        if node.link is None {
            Some(RuntimeErrorView::ConsumerNotSet(node.name))
        } else if self.spec_source() is None {
            Some(RuntimeErrorView::InvalidConfiguration("SubStream result source is missing"@))
        } else if graph.config.service_id matches Some(id) && id != self.spec_service() {
            Some(
                RuntimeErrorView::InvalidConfiguration(
                    "SubStream belongs to a different service"@,
                ),
            )
        } else {
            None
        }
    }

    /// Whether the sub-stream can be called.
    pub fn build(&self, environment: &RuntimeEnvironment) -> (result: RuntimeResult<()>)
        requires
            self.spec_stream().belongs(environment@),
        ensures
            match result {
                Ok(_) => self.build_error(environment@) is None,
                Err(error) => self.build_error(environment@) == Some(error@),
            },
    {
        if self.stream.link_collector(environment).is_none() {
            let stream = self.stream.name(environment);
            return Err(RuntimeError::ConsumerNotSet { stream });
        }
        if self.source.is_none() {
            return Err(RuntimeError::invalid("SubStream result source is missing"));
        }
        match environment.service_id() {
            Some(id) => {
                if id != self.service_id {
                    return Err(RuntimeError::invalid("SubStream belongs to a different service"));
                }
            },
            None => {},
        }
        Ok(())
    }

    /// Calls the sub-stream with a value: the call is open, and the value enters. A
    /// sub-stream that cannot be called, or a context that was cancelled, fails the
    /// call.
    pub fn consume(&self, context: MessageContext, value: T, environment: &RuntimeEnvironment) -> (
        result: RuntimeResult<(SubStreamCall, Emission<T>)>)
        requires
            self.spec_stream().belongs(environment@),
        ensures
            match result {
                Ok((call, emission)) => {
                    &&& self.build_error(environment@) is None
                    &&& !context.spec_cancelled()
                    &&& call == (SubStreamCall {
                        open: true,
                        delivering: false,
                        phase: CallPhase::Dispatching,
                    })
                    &&& emission.stream == self.spec_stream()
                    &&& emission.context == context
                    &&& emission.payload@ == value
                },
                Err(error) => match self.build_error(environment@) {
                    Some(failed) => error@ == failed,
                    None => {
                        &&& context.spec_cancelled()
                        &&& error@ == RuntimeErrorView::ContextCancelled
                    },
                },
            },
    {
        match self.build(environment) {
            Ok(_) => {},
            Err(error) => return Err(error),
        }
        if context.is_cancelled() {
            return Err(RuntimeError::ContextCancelled);
        }
        let call = SubStreamCall {
            open: true,
            delivering: false,
            phase: CallPhase::Dispatching,
        };
        Ok((call, self.stream.collector().out(context, value)))
    }
}

/// How far a call has come.
#[derive(Clone, Copy, Debug, PartialEq, Eq, Structural)]
pub enum CallPhase {
    /// The value is on its way through the sub-stream.
    Dispatching,
    /// The value is through; results may still come.
    Waiting,
    /// The call ends once the result that is being collected is through.
    Draining { cancelled: bool },
    /// The call is over.
    Over { cancelled: bool },
}

/// A call of a sub-stream.
#[derive(Clone, Copy, Debug, PartialEq, Eq, Structural)]
pub struct SubStreamCall {
    /// Whether results are still taken.
    pub open: bool,
    /// Whether a result is being collected.
    pub delivering: bool,
    pub phase: CallPhase,
}

/// What happens to a call. `cancelled` tells whether the context of the caller was
/// cancelled by then.
#[derive(Clone, Copy, Debug, PartialEq, Eq, Structural)]
pub enum CallEvent {
    /// A result came, and no other is being collected.
    Result { cancelled: bool },
    /// The collector returned. `enough` holds if it wants no more results.
    Collected { enough: bool, cancelled: bool },
    /// The value is through the sub-stream.
    Dispatched { cancelled: bool },
    /// The context of the caller was cancelled.
    Cancelled,
}

/// What the driver of a call does next.
#[derive(Clone, Copy, Debug, PartialEq, Eq, Structural)]
pub enum CallAction {
    /// Nothing.
    Idle,
    /// Hand the result to the collector, under the context of the caller.
    Collect,
    /// End the call with success.
    Succeed,
    /// End the call as cancelled.
    Fail,
}

impl SubStreamCall {
    /// The end of a call, or the wait for the result that is being collected.
    pub open spec fn ending(self, cancelled: bool) -> (SubStreamCall, CallAction) {
        if self.delivering {
            (
                SubStreamCall {
                    open: false,
                    delivering: true,
                    phase: CallPhase::Draining { cancelled },
                },
                CallAction::Idle,
            )
        } else {
            (
                SubStreamCall {
                    open: false,
                    delivering: false,
                    phase: CallPhase::Over { cancelled },
                },
                if cancelled {
                    CallAction::Fail
                } else {
                    CallAction::Succeed
                },
            )
        }
    }

    /// What an event leads to. Results are taken one at a time and only while the call
    /// is open; the call closes when the collector has enough or the caller is
    /// cancelled.
    pub open spec fn next(self, event: CallEvent) -> (SubStreamCall, CallAction) {
        match event {
            CallEvent::Result { cancelled } => if !self.open || self.delivering {
                (self, CallAction::Idle)
            } else if cancelled {
                match self.phase {
                    CallPhase::Waiting => self.ending(true),
                    _ => (SubStreamCall { open: false, ..self }, CallAction::Idle),
                }
            } else {
                (SubStreamCall { delivering: true, ..self }, CallAction::Collect)
            },
            CallEvent::Collected { enough, cancelled } => if !self.delivering {
                (self, CallAction::Idle)
            } else {
                let through = SubStreamCall {
                    delivering: false,
                    open: self.open && !enough,
                    phase: self.phase,
                };
                match self.phase {
                    CallPhase::Draining { cancelled: failed } => through.ending(failed),
                    CallPhase::Waiting => if enough {
                        through.ending(cancelled)
                    } else {
                        (through, CallAction::Idle)
                    },
                    _ => (through, CallAction::Idle),
                }
            },
            CallEvent::Dispatched { cancelled } => match self.phase {
                CallPhase::Dispatching => if cancelled {
                    self.ending(true)
                } else if !self.open {
                    self.ending(false)
                } else {
                    (SubStreamCall { phase: CallPhase::Waiting, ..self }, CallAction::Idle)
                },
                _ => (self, CallAction::Idle),
            },
            CallEvent::Cancelled => match self.phase {
                CallPhase::Dispatching => self.ending(true),
                CallPhase::Waiting => self.ending(true),
                _ => (self, CallAction::Idle),
            },
        }
    }

    fn end(self, cancelled: bool) -> (outcome: (SubStreamCall, CallAction))
        ensures
            outcome == self.ending(cancelled),
    {
        if self.delivering {
            (
                SubStreamCall {
                    open: false,
                    delivering: true,
                    phase: CallPhase::Draining { cancelled },
                },
                CallAction::Idle,
            )
        } else if cancelled {
            (
                SubStreamCall {
                    open: false,
                    delivering: false,
                    phase: CallPhase::Over { cancelled },
                },
                CallAction::Fail,
            )
        } else {
            (
                SubStreamCall {
                    open: false,
                    delivering: false,
                    phase: CallPhase::Over { cancelled },
                },
                CallAction::Succeed,
            )
        }
    }

    /// Takes the next event and says what the driver has to do.
    pub fn step(self, event: CallEvent) -> (outcome: (SubStreamCall, CallAction))
        ensures
            outcome == self.next(event),
    {
        match event {
            CallEvent::Result { cancelled } => {
                if !self.open || self.delivering {
                    (self, CallAction::Idle)
                } else if cancelled {
                    match self.phase {
                        CallPhase::Waiting => self.end(true),
                        _ => (
                            SubStreamCall {
                                open: false,
                                delivering: self.delivering,
                                phase: self.phase,
                            },
                            CallAction::Idle,
                        ),
                    }
                } else {
                    (
                        SubStreamCall { open: self.open, delivering: true, phase: self.phase },
                        CallAction::Collect,
                    )
                }
            },
            CallEvent::Collected { enough, cancelled } => {
                if !self.delivering {
                    return (self, CallAction::Idle);
                }
                let through = SubStreamCall {
                    delivering: false,
                    open: self.open && !enough,
                    phase: self.phase,
                };
                match self.phase {
                    CallPhase::Draining { cancelled: failed } => through.end(failed),
                    CallPhase::Waiting => {
                        if enough {
                            through.end(cancelled)
                        } else {
                            (through, CallAction::Idle)
                        }
                    },
                    _ => (through, CallAction::Idle),
                }
            },
            CallEvent::Dispatched { cancelled } => match self.phase {
                CallPhase::Dispatching => {
                    if cancelled {
                        self.end(true)
                    } else if !self.open {
                        self.end(false)
                    } else {
                        (
                            SubStreamCall {
                                open: self.open,
                                delivering: self.delivering,
                                phase: CallPhase::Waiting,
                            },
                            CallAction::Idle,
                        )
                    }
                },
                _ => (self, CallAction::Idle),
            },
            CallEvent::Cancelled => match self.phase {
                CallPhase::Dispatching => self.end(true),
                CallPhase::Waiting => self.end(true),
                _ => (self, CallAction::Idle),
            },
        }
    }
}

/// Where a call stands after some events, and all that was asked for on the way.
pub open spec fn run(call: SubStreamCall, events: Seq<CallEvent>) -> (
    SubStreamCall,
    Seq<CallAction>,
)
    decreases events.len(),
{
    if events.len() == 0 {
        (call, Seq::empty())
    } else {
        let before = run(call, events.drop_last());
        let after = before.0.next(events.last());
        (after.0, before.1.push(after.1))
    }
}

/// How often a call was ended.
pub open spec fn endings(actions: Seq<CallAction>) -> nat
    decreases actions.len(),
{
    if actions.len() == 0 {
        0
    } else {
        endings(actions.drop_last()) + if actions.last() == CallAction::Succeed
            || actions.last() == CallAction::Fail {
            1nat
        } else {
            0
        }
    }
}

/// Once a call is closed it takes no more results and is never open again.
pub proof fn law_closed_call_takes_no_results(call: SubStreamCall, event: CallEvent)
    requires
        !call.open,
    ensures
        !call.next(event).0.open,
        call.next(event).1 != CallAction::Collect,
{
}

/// Results are collected one at a time: none is handed to the collector while it has
/// another, and only a call that is open hands one over.
pub proof fn law_results_are_collected_one_at_a_time(call: SubStreamCall, event: CallEvent)
    ensures
        call.next(event).1 == CallAction::Collect ==> {
            &&& event == CallEvent::Result { cancelled: false }
            &&& call.open
            &&& !call.delivering
            &&& call.next(event).0.delivering
        },
        call.delivering && !call.next(event).0.delivering ==> event is Collected,
{
}

/// Whether an event tells that the context of the caller was cancelled by then.
pub open spec fn tells_cancelled(event: CallEvent) -> bool {
    match event {
        CallEvent::Result { cancelled } => cancelled,
        CallEvent::Collected { cancelled, .. } => cancelled,
        CallEvent::Dispatched { cancelled } => cancelled,
        CallEvent::Cancelled => true,
    }
}

/// A call whose caller was cancelled before it ended does not succeed any more.
pub proof fn law_cancelled_call_does_not_succeed(call: SubStreamCall, events: Seq<CallEvent>)
    requires
        call.phase != (CallPhase::Draining { cancelled: false }),
        forall|i: int| 0 <= i < events.len() ==> tells_cancelled(#[trigger] events[i]),
    ensures
        run(call, events).0.phase != (CallPhase::Draining { cancelled: false }),
        !run(call, events).1.contains(CallAction::Succeed),
    decreases events.len(),
{
    if events.len() > 0 {
        law_cancelled_call_does_not_succeed(call, events.drop_last());
        let before = run(call, events.drop_last());
        let after = before.0.next(events.last());
        let actions = before.1.push(after.1);
        assert(tells_cancelled(events[events.len() - 1]));
        assert forall|i: int| 0 <= i < actions.len() implies actions[i] != CallAction::Succeed by {
            if i < before.1.len() {
                assert(before.1.contains(before.1[i]));
            }
        }
    }
}

/// A call ends exactly once: it has not ended before it is over, and once it is over
/// it has ended once, is closed, and collects nothing.
pub proof fn law_call_ends_once(events: Seq<CallEvent>)
    ensures
        ({
            let start = SubStreamCall {
                open: true,
                delivering: false,
                phase: CallPhase::Dispatching,
            };
            let (call, actions) = run(start, events);
            &&& endings(actions) == (if call.phase is Over {
                1nat
            } else {
                0
            })
            &&& call.phase is Over ==> !call.open && !call.delivering
            &&& call.phase is Draining ==> !call.open && call.delivering
        }),
    decreases events.len(),
{
    let start = SubStreamCall { open: true, delivering: false, phase: CallPhase::Dispatching };
    if events.len() > 0 {
        law_call_ends_once(events.drop_last());
        let before = run(start, events.drop_last());
        let after = before.0.next(events.last());
        assert(before.1.push(after.1).drop_last() =~= before.1);
    }
}

/// Whether the caller, once cancelled, stays so.
pub open spec fn cancellation_persists(events: Seq<CallEvent>) -> bool {
    forall|i: int, j: int|
        0 <= i <= j < events.len() && tells_cancelled(#[trigger] events[i]) ==> tells_cancelled(
            #[trigger] events[j],
        )
}

/// Whether the collector said, of a result that was being delivered to it, that it has
/// enough.
pub open spec fn has_enough(call: SubStreamCall, events: Seq<CallEvent>) -> bool
    decreases events.len(),
{
    events.len() > 0 && (has_enough(call, events.drop_last()) || {
        &&& run(call, events.drop_last()).0.delivering
        &&& events.last() matches CallEvent::Collected { enough: true, .. }
    })
}

/// A call succeeds only after the collector said that it has enough; until then it stays
/// open, unless the caller is cancelled.
pub proof fn law_success_needs_enough(events: Seq<CallEvent>)
    requires
        cancellation_persists(events),
    ensures
        ({
            let start = SubStreamCall {
                open: true,
                delivering: false,
                phase: CallPhase::Dispatching,
            };
            let (call, actions) = run(start, events);
            &&& actions.contains(CallAction::Succeed) ==> has_enough(start, events)
            &&& !call.open ==> has_enough(start, events) || tells_cancelled(events.last())
            &&& !call.open && !has_enough(start, events) ==> events.len() > 0
            &&& call.phase != (CallPhase::Draining { cancelled: false })
            &&& call.phase == CallPhase::Waiting ==> call.open
            &&& call.delivering ==> call.open || call.phase is Draining
            &&& call.phase is Draining || call.phase is Over ==> !call.open
        }),
    decreases events.len(),
{
    let start = SubStreamCall { open: true, delivering: false, phase: CallPhase::Dispatching };
    if events.len() > 0 {
        let front = events.drop_last();
        assert forall|i: int, j: int|
            0 <= i <= j < front.len() && tells_cancelled(
                #[trigger] front[i],
            ) implies tells_cancelled(#[trigger] front[j]) by {
            assert(tells_cancelled(events[i]));
            assert(tells_cancelled(events[j]));
        }
        law_success_needs_enough(front);
        let before = run(start, front);
        let after = before.0.next(events.last());
        if front.len() > 0 && tells_cancelled(front.last()) {
            assert(tells_cancelled(events[front.len() - 1]));
            assert(tells_cancelled(events[events.len() - 1]));
        }
        let actions = before.1.push(after.1);
        if actions.contains(CallAction::Succeed) && !has_enough(start, front) {
            let i = choose|i: int| 0 <= i < actions.len() && actions[i] == CallAction::Succeed;
            if i < before.1.len() {
                assert(before.1.contains(before.1[i]));
            }
        }
    }
}

/// A call whose value is through the sub-stream waits for results as long as it is open;
/// it ends at once if the collector had enough before, or fails if the caller was
/// cancelled. A result that is being collected is awaited either way.
pub proof fn law_dispatched_call_waits(call: SubStreamCall, cancelled: bool)
    requires
        call.phase == CallPhase::Dispatching,
    ensures
        ({
            let (after, action) = call.next(CallEvent::Dispatched { cancelled });
            &&& after.delivering == call.delivering
            &&& !cancelled && call.open ==> {
                &&& after.phase == CallPhase::Waiting
                &&& after.open
                &&& action == CallAction::Idle
            }
            &&& cancelled || !call.open ==> {
                &&& !after.open
                &&& call.delivering ==> action == CallAction::Idle && after.phase
                    == (CallPhase::Draining { cancelled })
                &&& !call.delivering ==> after.phase == (CallPhase::Over { cancelled })
                &&& !call.delivering ==> action == (if cancelled {
                    CallAction::Fail
                } else {
                    CallAction::Succeed
                })
            }
        }),
{
}

/// A result that comes to an open call is handed to the collector, whether or not the
/// value is through already, unless the caller was cancelled: then the call takes no
/// more results, and fails if it was waiting for them.
pub proof fn law_open_call_collects_results(call: SubStreamCall, cancelled: bool)
    requires
        call.open,
        !call.delivering,
        call.phase == CallPhase::Dispatching || call.phase == CallPhase::Waiting,
    ensures
        ({
            let (after, action) = call.next(CallEvent::Result { cancelled });
            &&& !cancelled ==> {
                &&& action == CallAction::Collect
                &&& after.open
                &&& after.delivering
                &&& after.phase == call.phase
            }
            &&& cancelled ==> !after.open && !after.delivering
            &&& cancelled && call.phase == CallPhase::Waiting ==> {
                &&& action == CallAction::Fail
                &&& after.phase == (CallPhase::Over { cancelled: true })
            }
            &&& cancelled && call.phase == CallPhase::Dispatching ==> {
                &&& action == CallAction::Idle
                &&& after.phase == CallPhase::Dispatching
            }
        }),
{
}

/// What the collector returns decides: a waiting call ends if and only if it has enough,
/// one whose value is still on its way goes on but takes no more results then, and one
/// that only waited for the collector ends as it was to.
pub proof fn law_collector_decides(call: SubStreamCall, enough: bool, cancelled: bool)
    requires
        call.delivering,
    ensures
        ({
            let (after, action) = call.next(CallEvent::Collected { enough, cancelled });
            &&& !after.delivering
            &&& call.phase == CallPhase::Waiting && enough ==> {
                &&& after.phase == (CallPhase::Over { cancelled })
                &&& action == (if cancelled {
                    CallAction::Fail
                } else {
                    CallAction::Succeed
                })
                &&& !after.open
            }
            &&& call.phase == CallPhase::Waiting && !enough ==> {
                &&& after.phase == CallPhase::Waiting
                &&& action == CallAction::Idle
                &&& after.open == call.open
            }
            &&& call.phase == CallPhase::Dispatching ==> {
                &&& after.phase == CallPhase::Dispatching
                &&& action == CallAction::Idle
                &&& after.open == (call.open && !enough)
            }
            &&& call.phase matches CallPhase::Draining { cancelled: failed } ==> {
                &&& after.phase == (CallPhase::Over { cancelled: failed })
                &&& action == (if failed {
                    CallAction::Fail
                } else {
                    CallAction::Succeed
                })
            }
        }),
{
}

/// A cancelled caller fails its call at once or, while a result is being collected, as
/// soon as that is through. A call that is ending or over hears nothing of it.
pub proof fn law_cancelled_call_fails(call: SubStreamCall)
    ensures
        ({
            let (after, action) = call.next(CallEvent::Cancelled);
            match call.phase {
                CallPhase::Dispatching | CallPhase::Waiting => {
                    &&& !after.open
                    &&& after.delivering == call.delivering
                    &&& call.delivering ==> action == CallAction::Idle && after.phase
                        == (CallPhase::Draining { cancelled: true })
                    &&& !call.delivering ==> action == CallAction::Fail && after.phase
                        == (CallPhase::Over { cancelled: true })
                },
                _ => after == call && action == CallAction::Idle,
            }
        }),
{
}

/// An event that the call does not wait for changes nothing.
pub proof fn law_stray_call_events_change_nothing(call: SubStreamCall, event: CallEvent)
    requires
        match event {
            CallEvent::Result { .. } => !call.open || call.delivering,
            CallEvent::Collected { .. } => !call.delivering,
            CallEvent::Dispatched { .. } => call.phase != CallPhase::Dispatching,
            CallEvent::Cancelled => call.phase is Draining || call.phase is Over,
        },
    ensures
        call.next(event) == (call, CallAction::Idle),
{
}

/// A sub-stream can be called if and only if it has a consumer, a source of results and
/// belongs to the service that runs, and the first of these that is missing is what a
/// refused call is told.
pub proof fn law_callable_sub_stream_is_complete<T, R>(sub: SubStream<T, R>, graph: EnvironmentView)
    ensures
        ({
            let node = graph.nodes[sub.spec_stream().spec_node()];
            let foreign = graph.config.service_id is Some && graph.config.service_id->0
                != sub.spec_service();
            &&& sub.build_error(graph) is None <==> node.link is Some && sub.spec_source() is Some
                && !foreign
            &&& sub.build_error(graph) matches Some(error) ==> {
                &&& error is ConsumerNotSet <==> node.link is None
                &&& error matches RuntimeErrorView::ConsumerNotSet(name) ==> name == node.name
                &&& error == RuntimeErrorView::InvalidConfiguration(
                    "SubStream result source is missing"@,
                ) || error == RuntimeErrorView::InvalidConfiguration(
                    "SubStream belongs to a different service"@,
                ) || error is ConsumerNotSet
                &&& node.link is Some && sub.spec_source() is None ==> error
                    == RuntimeErrorView::InvalidConfiguration(
                    "SubStream result source is missing"@,
                )
                &&& node.link is Some && sub.spec_source() is Some ==> error
                    == RuntimeErrorView::InvalidConfiguration(
                    "SubStream belongs to a different service"@,
                )
            }
        }),
{
}

/// A stream belongs to the service that its configuration names, and to none where there is no
/// configuration for it.
pub proof fn law_streams_belong_to_their_service(config: RuntimeConfig, id: i32)
    ensures
        config.spec_stream_config(id) matches Some(found) ==> service_of(config, id) == Some(
            found.spec_stream().id_service,
        ),
        config.spec_stream_config(id) is None ==> service_of(config, id) is None,
{
}

} // verus!
