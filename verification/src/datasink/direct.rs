//! Requests of sinks whose `begin_request` cannot fail and whose handler does all
//! the sending.
use vstd::prelude::*;

use crate::runtime::common::{MessageContext, Payload};
use crate::runtime::error::HandlerResult;
use crate::runtime::request::{
    follows, follows_empty, follows_push, group_tally, lemma_follows_add, one, push_request_end,
    request_end, succeeded, tally, two, Action, Kind, Metric,
};

verus! {

/// How far a request has come.
pub enum DirectPhase<T, X> {
    /// `begin_request` is running.
    Beginning { value: Payload<T> },
    /// `consume_message` is running.
    Consuming { context: MessageContext, value: Payload<T> },
    /// `end_request` is running.
    Ending { context: MessageContext, value: Payload<T>, result: HandlerResult<(), X> },
    /// Over.
    Finished { result: HandlerResult<(), X> },
}

/// What the driver reports.
pub enum DirectEvent<X> {
    /// `begin_request` returned the context to go on with.
    Begun(MessageContext),
    /// `consume_message` returned.
    Consumed(HandlerResult<(), X>),
    /// `end_request` returned. `notify` tells whether the sink has a callback by now.
    Ended { notify: bool },
}

/// One request.
pub struct DirectRequest<T, X> {
    pub timed: bool,
    pub phase: DirectPhase<T, X>,
}

/// What follows `end_request`: the sink's callback runs where there is one, then the
/// metrics are updated.
pub open spec fn direct_end<T>(
    timed: bool,
    context: MessageContext,
    value: Payload<T>,
    ok: bool,
    notify: bool,
) -> Seq<Action<Payload<T>, (), ()>> {
    (if notify {
        one(Action::NotifySink { context, value })
    } else {
        Seq::empty()
    }) + request_end(timed, ok)
}

impl<T, X> DirectRequest<T, X> {
    /// What an event leads to. An event that the phase does not wait for changes
    /// nothing.
    pub open spec fn next(self, event: DirectEvent<X>) -> (
        DirectRequest<T, X>,
        Seq<Action<Payload<T>, (), ()>>,
    ) {
        let timed = self.timed;
        match (self.phase, event) {
            (DirectPhase::Beginning { value }, DirectEvent::Begun(context)) => (
                DirectRequest { timed, phase: DirectPhase::Consuming { context, value } },
                two(Action::Record(Metric::ActiveUp), Action::ConsumeMessage { context, value }),
            ),
            (DirectPhase::Consuming { context, value }, DirectEvent::Consumed(result)) => (
                DirectRequest { timed, phase: DirectPhase::Ending { context, value, result } },
                one(Action::EndRequest { context }),
            ),
            (DirectPhase::Ending { context, value, result }, DirectEvent::Ended { notify }) => (
                DirectRequest { timed, phase: DirectPhase::Finished { result } },
                direct_end(timed, context, value, result is Ok, notify),
            ),
            _ => (self, Seq::empty()),
        }
    }

    /// Opens a request under the stream id that the handler gave the message:
    /// `begin_request` runs first.
    pub fn open(timed: bool, context: MessageContext, stream_id: String, value: Payload<T>) -> (
        opened: (DirectRequest<T, X>, Vec<Action<Payload<T>, (), ()>>))
        ensures
            opened.0 == (DirectRequest::<T, X> {
                timed,
                phase: DirectPhase::Beginning { value },
            }),
            opened.1@ == one(
                Action::<Payload<T>, (), ()>::BeginRequest {
                    context: context.spec_with_stream_id(stream_id),
                },
            ),
    {
        let mut actions: Vec<Action<Payload<T>, (), ()>> = Vec::new();
        actions.push(Action::BeginRequest { context: context.with_stream_id(stream_id) });
        (DirectRequest { timed, phase: DirectPhase::Beginning { value } }, actions)
    }

    /// Takes the next event and says what the driver has to do.
    pub fn step(self, event: DirectEvent<X>) -> (outcome: (
        DirectRequest<T, X>,
        Vec<Action<Payload<T>, (), ()>>,
    ))
        ensures
            outcome.0 == self.next(event).0,
            outcome.1@ == self.next(event).1,
    {
        let ghost start = self;
        let ghost given = event;
        let timed: bool = self.timed;
        let mut actions: Vec<Action<Payload<T>, (), ()>> = Vec::new();
        let phase = match (self.phase, event) {
            (DirectPhase::Beginning { value }, DirectEvent::Begun(context)) => {
                let (consumed, value) = value.share();
                actions.push(Action::Record(Metric::ActiveUp));
                actions.push(Action::ConsumeMessage { context: context.clone(), value: consumed });
                DirectPhase::Consuming { context, value }
            },
            (DirectPhase::Consuming { context, value }, DirectEvent::Consumed(result)) => {
                actions.push(Action::EndRequest { context: context.clone() });
                DirectPhase::Ending { context, value, result }
            },
            (DirectPhase::Ending { context, value, result }, DirectEvent::Ended { notify }) => {
                let ok: bool = succeeded(&result);
                if notify {
                    actions.push(Action::NotifySink { context, value });
                }
                push_request_end(&mut actions, timed, ok);
                DirectPhase::Finished { result }
            },
            (phase, _) => phase,
        };
        assert(actions@ =~= start.next(given).1);
        (DirectRequest { timed, phase }, actions)
    }

    /// The result that `end_request` and the sink's callback get, once it is known.
    pub fn result(&self) -> (result: Option<&HandlerResult<(), X>>)
        ensures
            match result {
                Some(r) => match self.phase {
                    DirectPhase::Ending { result, .. } => result == *r,
                    DirectPhase::Finished { result } => result == *r,
                    _ => false,
                },
                None => !(self.phase is Ending) && !(self.phase is Finished),
            },
    {
        match &self.phase {
            DirectPhase::Ending { result, .. } => Some(result),
            DirectPhase::Finished { result } => Some(result),
            _ => None,
        }
    }
}

/// Where a request stands after some events, and all it asked for on the way.
pub open spec fn run<T, X>(request: DirectRequest<T, X>, events: Seq<DirectEvent<X>>) -> (
    DirectRequest<T, X>,
    Seq<Action<Payload<T>, (), ()>>,
)
    decreases events.len(),
{
    if events.len() == 0 {
        (request, Seq::empty())
    } else {
        let before = run(request, events.drop_last());
        let after = before.0.next(events.last());
        (after.0, before.1 + after.1)
    }
}

/// What a request has asked for by the time it stands where it stands.
pub open spec fn accounted<T, X>(
    request: DirectRequest<T, X>,
    actions: Seq<Action<Payload<T>, (), ()>>,
) -> bool {
    let begun = !(request.phase is Beginning);
    let over = request.phase is Finished;
    let ok = request.phase matches DirectPhase::Finished { result: Ok(_) };
    &&& tally(actions, Kind::ConsumeMessage) == (if begun { 1nat } else { 0 })
    &&& tally(actions, Kind::Record(Metric::ActiveUp)) == (if begun { 1nat } else { 0 })
    &&& tally(actions, Kind::EndRequest) == (if over || request.phase is Ending { 1nat } else { 0 })
    &&& tally(actions, Kind::NotifySink) <= (if over { 1nat } else { 0 })
    &&& follows(actions, Kind::NotifySink, Kind::EndRequest)
    &&& tally(actions, Kind::Record(Metric::ActiveDown)) == (if over { 1nat } else { 0 })
    &&& tally(actions, Kind::Record(Metric::MessagesTotal)) == (if ok { 1nat } else { 0 })
    &&& tally(actions, Kind::Record(Metric::RequestError)) == (if over && !ok { 1nat } else { 0 })
}

/// Whatever the driver reports, and in whatever order: a request is consumed once it
/// began and ended exactly once when it is over; it is active from its beginning to
/// its end and counts once, as a message or as an error; the sink's callback hears of
/// it at most once, and only after its end.
pub proof fn law_request_accounting<T, X>(
    timed: bool,
    value: Payload<T>,
    events: Seq<DirectEvent<X>>,
)
    ensures
        ({
            let start = DirectRequest::<T, X> { timed, phase: DirectPhase::Beginning { value } };
            accounted(run(start, events).0, run(start, events).1)
        }),
    decreases events.len(),
{
    broadcast use {group_tally, follows_push, follows_empty};

    let start = DirectRequest::<T, X> { timed, phase: DirectPhase::Beginning { value } };
    if events.len() > 0 {
        law_request_accounting::<T, X>(timed, value, events.drop_last());
        let (before, actions) = run(start, events.drop_last());
        match (before.phase, events.last()) {
            (DirectPhase::Ending { context, value, result }, DirectEvent::Ended { notify }) => {
                let end = request_end::<Payload<T>, (), ()>(before.timed, result is Ok);
                if notify {
                    let heard = Action::<Payload<T>, (), ()>::NotifySink { context, value };
                    assert(actions + (one(heard) + end) =~= actions.push(heard) + end);
                    lemma_follows_add(
                        actions.push(heard),
                        end,
                        Kind::NotifySink,
                        Kind::EndRequest,
                    );
                } else {
                    assert(actions + (Seq::empty() + end) =~= actions + end);
                    lemma_follows_add(actions, end, Kind::NotifySink, Kind::EndRequest);
                }
            },
            (_, event) => {
                lemma_follows_add(
                    actions,
                    before.next(event).1,
                    Kind::NotifySink,
                    Kind::EndRequest,
                );
            },
        }
    }
}

/// The result of a request is what `consume_message` returned, for `end_request` and for
/// the sink's callback alike. An event that the request does not wait for changes
/// nothing.
pub proof fn law_result_is_what_the_handler_returned<T, X>(
    request: DirectRequest<T, X>,
    event: DirectEvent<X>,
)
    ensures
        ({
            let (after, asked) = request.next(event);
            &&& after.timed == request.timed
            &&& match (request.phase, event) {
                (DirectPhase::Beginning { value }, DirectEvent::Begun(context)) => {
                    &&& after.phase == (DirectPhase::Consuming::<T, X> { context, value })
                    &&& asked.len() == 2
                    &&& asked[0] == Action::<Payload<T>, (), ()>::Record(Metric::ActiveUp)
                    &&& asked[1] == (Action::<Payload<T>, (), ()>::ConsumeMessage {
                        context,
                        value,
                    })
                },
                (DirectPhase::Consuming { context, value }, DirectEvent::Consumed(result)) => {
                    &&& after.phase == (DirectPhase::Ending::<T, X> { context, value, result })
                    &&& asked == one(Action::<Payload<T>, (), ()>::EndRequest { context })
                },
                (DirectPhase::Ending { result, .. }, DirectEvent::Ended { .. }) => after.phase
                    == (DirectPhase::Finished::<T, X> { result }),
                _ => after == request && asked.len() == 0,
            }
        }),
{
}

/// After `end_request` the sink's callback hears of the message, as it came and in the
/// context of the request, if and only if there is a callback by then; the request counts
/// after that, by its result.
pub proof fn law_callback_hears_of_the_message<T, X>(
    request: DirectRequest<T, X>,
    context: MessageContext,
    value: Payload<T>,
    result: HandlerResult<(), X>,
    notify: bool,
)
    requires
        request.phase == (DirectPhase::Ending::<T, X> { context, value, result }),
    ensures
        ({
            let asked = request.next(DirectEvent::Ended { notify }).1;
            &&& notify ==> asked[0] == (Action::<Payload<T>, (), ()>::NotifySink {
                context,
                value,
            })
            &&& forall|kind: Kind|
                #[trigger] tally(asked, kind) == (match kind {
                    Kind::NotifySink if notify => 1nat,
                    Kind::Record(Metric::ActiveDown) => 1nat,
                    Kind::Record(Metric::Duration) if request.timed => 1nat,
                    Kind::Record(Metric::MessagesTotal) if result is Ok => 1nat,
                    Kind::Record(Metric::RequestError) if result is Err => 1nat,
                    _ => 0nat,
                })
        }),
{
    broadcast use group_tally;

}

/// The request is no longer active, and counts by its result, last of all.
pub proof fn law_counts_come_last<T, X>(
    request: DirectRequest<T, X>,
    result: HandlerResult<(), X>,
    notify: bool,
)
    requires
        request.phase matches DirectPhase::Ending { result: r, .. } && r == result,
    ensures
        ({
            let asked = request.next(DirectEvent::Ended { notify }).1;
            let at = if notify {
                1int
            } else {
                0
            };
            &&& asked[at] == Action::<Payload<T>, (), ()>::Record(Metric::ActiveDown)
            &&& asked.last() == Action::<Payload<T>, (), ()>::Record(
                if result is Ok {
                    Metric::MessagesTotal
                } else {
                    Metric::RequestError
                },
            )
        }),
{
    reveal(request_end);
}

} // verus!
