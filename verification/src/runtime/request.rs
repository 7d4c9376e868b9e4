//! What a request asks its driver to do.
use vstd::prelude::*;

use crate::runtime::common::MessageContext;
use crate::runtime::error::HandlerResult;

verus! {

/// An update of an endpoint's metrics.
#[derive(Clone, Copy, Debug, PartialEq, Eq, Structural)]
pub enum Metric {
    /// `active_requests` goes up by one.
    ActiveUp,
    /// `active_requests` goes down by one.
    ActiveDown,
    /// The time since `ActiveUp` goes into the duration histogram.
    Duration,
    /// `messages_total` goes up by one.
    MessagesTotal,
    /// The event counter goes up by one under `request_error`.
    RequestError,
    /// The event counter goes up by one under `begin_request_failed`.
    BeginRequestFailed,
    /// The measurement of a client call starts.
    CallStarted,
    /// The measurement of a client call ends with success.
    CallSucceeded,
    /// The measurement of a client call ends with the status of its error.
    CallFailed,
    /// The measurement of a client call ends with an unknown status.
    CallUnknown,
    /// A message came for a request that is closing.
    ClosingRejected,
    /// The event counter goes up by one under `missing_stream_id`.
    MissingStreamId,
    /// The event counter goes up by one under `late_result`.
    LateResult,
    /// The event counter goes up by one under `unknown_message_id`.
    UnknownMessageId,
    /// The event counter goes up by one under `duplicate_message_id`.
    DuplicateMessageId,
    /// The request enters the gauge of pending requests.
    PendingUp,
    /// The request leaves the gauge of pending requests.
    PendingDown,
    /// The event counter goes up by one under `invalid_http_method`.
    InvalidHttpMethod,
}

/// One thing that a request asks its driver to do. The driver does them in the
/// order in which they come.
pub enum Action<V, Req, Res> {
    /// Call the handler's `begin_request`.
    BeginRequest { context: MessageContext },
    /// Call the handler's `consume_message`.
    ConsumeMessage { context: MessageContext, value: V },
    /// Make the outgoing call.
    Call { context: MessageContext, request: Req },
    /// Wait for the next response of the call, or the next request of the peer.
    Receive,
    /// Tell the peer that no more requests come, and wait for its response.
    CloseAndReceive,
    /// Tell the peer that no more requests come.
    CloseSend,
    /// Wait until the messages that were let in have been handled.
    Drain,
    /// Keep the message until the call is open or given up, then report it again.
    Defer { value: V },
    /// Call the handler's `handle_response`.
    HandleResponse { context: MessageContext, response: Res },
    /// Call the handler's `end_request` with the result of the request.
    EndRequest { context: MessageContext },
    /// Tell the sink's callback that the message is done, with the result of the
    /// request.
    NotifySink { context: MessageContext, value: V },
    /// Close the body of the response.
    CloseBody,
    /// Call the handler's `eof`.
    Eof { context: MessageContext },
    /// Wait for the one response to the peer, or until the context is cancelled.
    AwaitResponse,
    /// Wait until the request is done or its context is cancelled.
    AwaitDone,
    /// Take the request out of the table of pending requests.
    Forget,
    /// Update a metric.
    Record(Metric),
}

/// An action without what it carries.
pub ghost enum Kind {
    BeginRequest,
    ConsumeMessage,
    Call,
    Receive,
    CloseAndReceive,
    CloseSend,
    Drain,
    Defer,
    HandleResponse,
    EndRequest,
    NotifySink,
    CloseBody,
    Eof,
    AwaitResponse,
    AwaitDone,
    Forget,
    Record(Metric),
}

impl<V, Req, Res> Action<V, Req, Res> {
    pub open spec fn kind(self) -> Kind {
        match self {
            Action::BeginRequest { .. } => Kind::BeginRequest,
            Action::ConsumeMessage { .. } => Kind::ConsumeMessage,
            Action::Call { .. } => Kind::Call,
            Action::Receive => Kind::Receive,
            Action::CloseAndReceive => Kind::CloseAndReceive,
            Action::CloseSend => Kind::CloseSend,
            Action::Drain => Kind::Drain,
            Action::Defer { .. } => Kind::Defer,
            Action::HandleResponse { .. } => Kind::HandleResponse,
            Action::EndRequest { .. } => Kind::EndRequest,
            Action::NotifySink { .. } => Kind::NotifySink,
            Action::CloseBody => Kind::CloseBody,
            Action::Eof { .. } => Kind::Eof,
            Action::AwaitResponse => Kind::AwaitResponse,
            Action::AwaitDone => Kind::AwaitDone,
            Action::Forget => Kind::Forget,
            Action::Record(metric) => Kind::Record(metric),
        }
    }
}

/// How often actions of a kind occur.
#[verifier::opaque]
pub open spec fn tally<V, Req, Res>(actions: Seq<Action<V, Req, Res>>, kind: Kind) -> nat
    decreases actions.len(),
{
    if actions.len() == 0 {
        0
    } else {
        tally(actions.drop_last(), kind) + if actions.last().kind() == kind {
            1nat
        } else {
            0nat
        }
    }
}

/// One more action adds itself to the tally.
pub broadcast proof fn tally_push<V, Req, Res>(
    actions: Seq<Action<V, Req, Res>>,
    action: Action<V, Req, Res>,
    kind: Kind,
)
    ensures
        #[trigger] tally(actions.push(action), kind) == tally(actions, kind) + if action.kind()
            == kind {
            1nat
        } else {
            0nat
        },
{
    reveal(tally);
    assert(actions.push(action).drop_last() =~= actions);
}

/// The tally of a concatenation is the sum of the tallies.
pub broadcast proof fn tally_add<V, Req, Res>(
    left: Seq<Action<V, Req, Res>>,
    right: Seq<Action<V, Req, Res>>,
    kind: Kind,
)
    ensures
        #[trigger] tally(left + right, kind) == tally(left, kind) + tally(right, kind),
    decreases right.len(),
{
    reveal(tally);
    if right.len() == 0 {
        assert(left + right =~= left);
    } else {
        tally_add(left, right.drop_last(), kind);
        assert((left + right).drop_last() =~= left + right.drop_last());
        assert((left + right).last() == right.last());
    }
}

/// Nothing occurs in an empty sequence.
pub broadcast proof fn tally_empty<V, Req, Res>(kind: Kind)
    ensures
        #[trigger] tally(Seq::<Action<V, Req, Res>>::empty(), kind) == 0,
{
    reveal(tally);
}


/// At no point have more actions of the kind `later` been asked for than of the kind
/// `earlier`: each `later` comes after an `earlier` of its own.
#[verifier::opaque]
pub open spec fn follows<V, Req, Res>(
    actions: Seq<Action<V, Req, Res>>,
    later: Kind,
    earlier: Kind,
) -> bool
    decreases actions.len(),
{
    actions.len() == 0 || (follows(actions.drop_last(), later, earlier) && tally(actions, later)
        <= tally(actions, earlier))
}

/// Nothing is out of order in an empty sequence.
pub broadcast proof fn follows_empty<V, Req, Res>(later: Kind, earlier: Kind)
    ensures
        #[trigger] follows(Seq::<Action<V, Req, Res>>::empty(), later, earlier),
{
    reveal(follows);
}

/// One more action keeps the order if there are still enough of the earlier kind.
pub broadcast proof fn follows_push<V, Req, Res>(
    actions: Seq<Action<V, Req, Res>>,
    action: Action<V, Req, Res>,
    later: Kind,
    earlier: Kind,
)
    ensures
        #[trigger] follows(actions.push(action), later, earlier) == (follows(
            actions,
            later,
            earlier,
        ) && tally(actions.push(action), later) <= tally(actions.push(action), earlier)),
{
    reveal(follows);
    assert(actions.push(action).drop_last() =~= actions);
}

/// Actions none of which is of the later kind keep the order.
pub proof fn lemma_follows_add<V, Req, Res>(
    left: Seq<Action<V, Req, Res>>,
    right: Seq<Action<V, Req, Res>>,
    later: Kind,
    earlier: Kind,
)
    requires
        follows(left, later, earlier),
        tally(right, later) == 0,
    ensures
        follows(left + right, later, earlier),
    decreases right.len(),
{
    reveal(follows);
    lemma_follows_total(left, later, earlier);
    if right.len() == 0 {
        assert(left + right =~= left);
    } else {
        tally_push(right.drop_last(), right.last(), later);
        assert(right.drop_last().push(right.last()) =~= right);
        lemma_follows_add(left, right.drop_last(), later, earlier);
        assert((left + right).drop_last() =~= left + right.drop_last());
        tally_add(left, right, later);
        tally_add(left, right, earlier);
    }
}

/// What holds at every point holds in the end.
pub proof fn lemma_follows_total<V, Req, Res>(
    actions: Seq<Action<V, Req, Res>>,
    later: Kind,
    earlier: Kind,
)
    requires
        follows(actions, later, earlier),
    ensures
        tally(actions, later) <= tally(actions, earlier),
{
    reveal(follows);
    reveal(tally);
}

/// In a sequence that is in order, an action of the later kind has one of the earlier
/// kind before it or in its place.
pub proof fn law_follows_means_after<V, Req, Res>(
    actions: Seq<Action<V, Req, Res>>,
    later: Kind,
    earlier: Kind,
    index: int,
)
    requires
        follows(actions, later, earlier),
        0 <= index < actions.len(),
        actions[index].kind() == later,
    ensures
        exists|i: int| 0 <= i <= index && (#[trigger] actions[i]).kind() == earlier,
    decreases actions.len(),
{
    reveal(follows);
    if index < actions.len() - 1 {
        let front = actions.drop_last();
        law_follows_means_after(front, later, earlier, index);
        let i = choose|i: int| 0 <= i <= index && (#[trigger] front[i]).kind() == earlier;
        assert(actions[i] == front[i]);
    } else {
        reveal(tally);
        assert(tally(actions, earlier) >= 1);
        lemma_tally_found(actions, earlier);
    }
}

proof fn lemma_tally_found<V, Req, Res>(actions: Seq<Action<V, Req, Res>>, kind: Kind)
    requires
        tally(actions, kind) >= 1,
    ensures
        exists|i: int| 0 <= i < actions.len() && (#[trigger] actions[i]).kind() == kind,
    decreases actions.len(),
{
    reveal(tally);
    if actions.last().kind() != kind {
        let front = actions.drop_last();
        lemma_tally_found(front, kind);
        let i = choose|i: int| 0 <= i < front.len() && (#[trigger] front[i]).kind() == kind;
        assert(actions[i] == front[i]);
    }
}

/// One action.
#[verifier::inline]
pub open spec fn one<A>(a: A) -> Seq<A> {
    Seq::empty().push(a)
}

/// Two actions.
#[verifier::inline]
pub open spec fn two<A>(a: A, b: A) -> Seq<A> {
    Seq::empty().push(a).push(b)
}

/// Three actions.
#[verifier::inline]
pub open spec fn three<A>(a: A, b: A, c: A) -> Seq<A> {
    Seq::empty().push(a).push(b).push(c)
}

/// The metric updates that end a request: it is no longer active, its duration is
/// observed where that is measured, and it counts as a message or as an error.
#[verifier::opaque]
pub open spec fn request_end<V, Req, Res>(timed: bool, ok: bool) -> Seq<Action<V, Req, Res>> {
    let outcome = if ok {
        Metric::MessagesTotal
    } else {
        Metric::RequestError
    };
    if timed {
        three(
            Action::Record(Metric::ActiveDown),
            Action::Record(Metric::Duration),
            Action::Record(outcome),
        )
    } else {
        two(Action::Record(Metric::ActiveDown), Action::Record(outcome))
    }
}

/// What occurs at the end of a request.
pub broadcast proof fn tally_request_end<V, Req, Res>(timed: bool, ok: bool, kind: Kind)
    ensures
        #[trigger] tally(request_end::<V, Req, Res>(timed, ok), kind) == (match kind {
            Kind::Record(Metric::ActiveDown) => 1nat,
            Kind::Record(Metric::Duration) if timed => 1nat,
            Kind::Record(Metric::MessagesTotal) if ok => 1nat,
            Kind::Record(Metric::RequestError) if !ok => 1nat,
            _ => 0nat,
        }),
{
    broadcast use tally_push, tally_empty;

    reveal(request_end);
}

pub broadcast group group_tally {
    tally_push,
    tally_add,
    tally_empty,
    tally_request_end,
}

/// Appends the metric updates that end a request.
pub fn push_request_end<V, Req, Res>(
    actions: &mut Vec<Action<V, Req, Res>>,
    timed: bool,
    ok: bool,
)
    ensures
        final(actions)@ == old(actions)@ + request_end(timed, ok),
{
    proof {
        reveal(request_end);
    }
    actions.push(Action::Record(Metric::ActiveDown));
    if timed {
        actions.push(Action::Record(Metric::Duration));
    }
    if ok {
        actions.push(Action::Record(Metric::MessagesTotal));
    } else {
        actions.push(Action::Record(Metric::RequestError));
    }
    assert(actions@ =~= old(actions)@ + request_end(timed, ok));
}

/// Whether a result is a success.
pub fn succeeded<T, X>(result: &HandlerResult<T, X>) -> (ok: bool)
    ensures
        ok == (*result is Ok),
{
    match result {
        Ok(_) => true,
        Err(_) => false,
    }
}

impl<V, Req, Res> Action<V, Req, Res> {
    /// The context that the handler of a request that began gets with an action, if it
    /// gets one.
    pub open spec fn handed(self) -> Option<MessageContext> {
        match self {
            Action::ConsumeMessage { context, .. } => Some(context),
            Action::HandleResponse { context, .. } => Some(context),
            Action::EndRequest { context } => Some(context),
            Action::NotifySink { context, .. } => Some(context),
            Action::Eof { context } => Some(context),
            _ => None,
        }
    }
}

/// Whether the handler gets no other context than `context`.
#[verifier::opaque]
pub open spec fn under<V, Req, Res>(
    actions: Seq<Action<V, Req, Res>>,
    context: MessageContext,
) -> bool {
    forall|i: int|
        0 <= i < actions.len() ==> ((#[trigger] actions[i]).handed() is None || actions[i].handed()
            == Some(context))
}

/// Nothing is handed out in an empty sequence.
pub broadcast proof fn under_empty<V, Req, Res>(context: MessageContext)
    ensures
        #[trigger] under(Seq::<Action<V, Req, Res>>::empty(), context),
{
    reveal(under);
}

/// One more action is held to the context, too.
pub broadcast proof fn under_push<V, Req, Res>(
    actions: Seq<Action<V, Req, Res>>,
    action: Action<V, Req, Res>,
    context: MessageContext,
)
    ensures
        #[trigger] under(actions.push(action), context) == (under(actions, context) && (
        action.handed() is None || action.handed() == Some(context))),
{
    reveal(under);
    let all = actions.push(action);
    assert(all[actions.len() as int] == action);
    assert forall|i: int| 0 <= i < actions.len() implies all[i] == #[trigger] actions[i] by {}
}

/// Both parts of a concatenation are held to the context.
pub broadcast proof fn under_add<V, Req, Res>(
    left: Seq<Action<V, Req, Res>>,
    right: Seq<Action<V, Req, Res>>,
    context: MessageContext,
)
    ensures
        #[trigger] under(left + right, context) == (under(left, context) && under(right, context)),
{
    reveal(under);
    let all = left + right;
    assert forall|i: int| 0 <= i < left.len() implies all[i] == #[trigger] left[i] by {}
    assert forall|i: int| 0 <= i < right.len() implies all[i + left.len()]
        == #[trigger] right[i] by {}
}

/// Metric updates hand nothing out.
pub broadcast proof fn under_request_end<V, Req, Res>(
    timed: bool,
    ok: bool,
    context: MessageContext,
)
    ensures
        #[trigger] under(request_end::<V, Req, Res>(timed, ok), context),
{
    broadcast use under_push, under_empty;

    reveal(request_end);
}

pub broadcast group group_under {
    under_empty,
    under_push,
    under_add,
    under_request_end,
}

/// What occurs in a part of a sequence of events occurs in the whole.
pub proof fn lemma_front_contains<A>(events: Seq<A>, event: A)
    requires
        events.len() > 0,
    ensures
        events.drop_last().contains(event) ==> events.contains(event),
        events.contains(events.last()),
{
    if events.drop_last().contains(event) {
        let i = choose|i: int|
            0 <= i < events.drop_last().len() && events.drop_last()[i] == event;
        assert(events[i] == event);
    }
    assert(events[events.len() - 1] == events.last());
}

/// The metric updates that end a request say first that it is no longer active and last
/// how it came out: as a message if and only if it succeeded, else as an error. Its
/// duration is observed in between if and only if it is measured, and nothing else is
/// touched.
pub proof fn law_request_end_counts_once<V, Req, Res>(timed: bool, ok: bool)
    ensures
        ({
            let end = request_end::<V, Req, Res>(timed, ok);
            &&& end.len() == (if timed {
                3int
            } else {
                2
            })
            &&& end[0] == Action::<V, Req, Res>::Record(Metric::ActiveDown)
            &&& ok <==> end.last() == Action::<V, Req, Res>::Record(Metric::MessagesTotal)
            &&& !ok <==> end.last() == Action::<V, Req, Res>::Record(Metric::RequestError)
            &&& timed ==> end[1] == Action::<V, Req, Res>::Record(Metric::Duration)
        }),
{
    reveal(request_end);
}

} // verus!
