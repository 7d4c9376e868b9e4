//! What gRPC sinks with a stream of requests share: sessions, one for every stream
//! id.
use vstd::prelude::*;

use crate::runtime::common::{law_only_the_stream_id_changes, MessageContext, Payload};
use crate::runtime::request::{
    follows, follows_push, group_tally, group_under, lemma_follows_add, one, push_request_end,
    request_end, tally, two, under, Action, Kind, Metric,
};
use crate::runtime::store::PendingTable;

verus! {

/// The metric update that ends the measurement of a call, where it is measured.
pub open spec fn call_end<T, Req, Res>(timed: bool, ok: bool) -> Seq<Action<Payload<T>, Req, Res>> {
    if !timed {
        Seq::empty()
    } else if ok {
        one(Action::Record(Metric::CallSucceeded))
    } else {
        one(Action::Record(Metric::CallFailed))
    }
}

/// All that ends a session that began: `end_request`, the metrics, and the removal
/// of its entry.
#[verifier::opaque]
pub open spec fn session_end<T, Req, Res>(timed: bool, context: MessageContext, ok: bool) -> Seq<
    Action<Payload<T>, Req, Res>,
> {
    one(Action::EndRequest { context }) + request_end(timed, ok) + call_end(timed, ok) + one(
        Action::Forget,
    )
}

/// What occurs at the end of a session that began.
pub broadcast proof fn tally_session_end<T, Req, Res>(
    timed: bool,
    context: MessageContext,
    ok: bool,
    kind: Kind,
)
    ensures
        #[trigger] tally(session_end::<T, Req, Res>(timed, context, ok), kind) == (match kind {
            Kind::EndRequest => 1nat,
            Kind::Forget => 1nat,
            Kind::Record(Metric::ActiveDown) => 1nat,
            Kind::Record(Metric::Duration) if timed => 1nat,
            Kind::Record(Metric::MessagesTotal) if ok => 1nat,
            Kind::Record(Metric::RequestError) if !ok => 1nat,
            Kind::Record(Metric::CallSucceeded) if timed && ok => 1nat,
            Kind::Record(Metric::CallFailed) if timed && !ok => 1nat,
            _ => 0nat,
        }),
{
    broadcast use group_tally;

    reveal(session_end);
}

/// The entry of a session that began is given up only after `end_request`.
pub proof fn lemma_session_end_order<T, Req, Res>(
    actions: Seq<Action<Payload<T>, Req, Res>>,
    timed: bool,
    context: MessageContext,
    ok: bool,
)
    requires
        follows(actions, Kind::Forget, Kind::EndRequest),
        tally(actions, Kind::Forget) == 0,
    ensures
        follows(
            actions + session_end::<T, Req, Res>(timed, context, ok),
            Kind::Forget,
            Kind::EndRequest,
        ),
{
    broadcast use {group_tally, follows_push};

    reveal(session_end);
    let end = one(Action::<Payload<T>, Req, Res>::EndRequest { context });
    let metrics = request_end::<Payload<T>, Req, Res>(timed, ok);
    let call = call_end::<T, Req, Res>(timed, ok);
    lemma_follows_add(actions, end, Kind::Forget, Kind::EndRequest);
    lemma_follows_add(actions + end, metrics, Kind::Forget, Kind::EndRequest);
    lemma_follows_add(actions + end + metrics, call, Kind::Forget, Kind::EndRequest);
    assert(actions + session_end::<T, Req, Res>(timed, context, ok) =~= (actions + end + metrics
        + call).push(Action::Forget));
}

/// What occurs when a session opens its call.
pub broadcast proof fn tally_session_call<T, Res>(
    timed: bool,
    context: MessageContext,
    call_id: String,
    kind: Kind,
)
    ensures
        #[trigger] tally(session_call::<T, Res>(timed, context, call_id), kind) == (match kind {
            Kind::Call => 1nat,
            Kind::Record(Metric::ActiveUp) => 1nat,
            Kind::Record(Metric::CallStarted) if timed => 1nat,
            _ => 0nat,
        }),
{
    broadcast use group_tally;

    reveal(session_call);
}

/// The end of a session hands out the session's own context.
pub broadcast proof fn under_session_end<T, Req, Res>(
    timed: bool,
    given: MessageContext,
    ok: bool,
    context: MessageContext,
)
    ensures
        #[trigger] under(session_end::<T, Req, Res>(timed, given, ok), context) == (given
            == context),
{
    broadcast use group_under;

    reveal(session_end);
}

pub broadcast group group_session {
    tally_session_end,
    tally_session_call,
    under_session_end,
}

/// Appends what ends a session that began.
pub fn push_session_end<T, Req, Res>(
    actions: &mut Vec<Action<Payload<T>, Req, Res>>,
    timed: bool,
    context: MessageContext,
    ok: bool,
)
    ensures
        final(actions)@ == old(actions)@ + session_end(timed, context, ok),
{
    proof {
        reveal(session_end);
    }
    actions.push(Action::EndRequest { context });
    push_request_end(actions, timed, ok);
    if timed {
        if ok {
            actions.push(Action::Record(Metric::CallSucceeded));
        } else {
            actions.push(Action::Record(Metric::CallFailed));
        }
    }
    actions.push(Action::Forget);
    assert(actions@ =~= old(actions)@ + session_end(timed, context, ok));
}

/// What follows `begin_request`: the request is active, its call is measured where
/// metrics are, and the call goes out under its own stream id.
#[verifier::opaque]
pub open spec fn session_call<T, Res>(
    timed: bool,
    context: MessageContext,
    call_id: String,
) -> Seq<Action<Payload<T>, (), Res>> {
    let call = Action::Call { context: context.spec_with_stream_id(call_id), request: () };
    if timed {
        two(Action::Record(Metric::ActiveUp), Action::Record(Metric::CallStarted)).push(call)
    } else {
        two(Action::Record(Metric::ActiveUp), call)
    }
}

/// Appends what follows `begin_request`.
pub fn push_session_call<T, Res>(
    actions: &mut Vec<Action<Payload<T>, (), Res>>,
    timed: bool,
    context: MessageContext,
    call_id: String,
)
    ensures
        final(actions)@ == old(actions)@ + session_call(timed, context, call_id),
{
    proof {
        reveal(session_call);
    }
    actions.push(Action::Record(Metric::ActiveUp));
    if timed {
        actions.push(Action::Record(Metric::CallStarted));
    }
    actions.push(Action::Call { context: context.with_stream_id(call_id), request: () });
    assert(actions@ =~= old(actions)@ + session_call(timed, context, call_id));
}

/// Which session a message belongs to.
pub struct Route {
    /// The context of the message, under the stream id of its session.
    pub context: MessageContext,
    pub stream_id: String,
    pub token: u64,
    /// Whether the session starts with this message.
    pub created: bool,
}

/// The stream id of a message: its own, or the fresh one where it has none.
pub open spec fn session_id(context: MessageContext, fresh: String) -> Seq<char> {
    match context.spec_stream_id() {
        Some(id) => id@,
        None => fresh@,
    }
}

/// What routing a message comes to: it goes to the session of its stream id, and
/// that session is created where there is none. The other sessions stay.
pub open spec fn routed(
    before: PendingTable,
    after: PendingTable,
    context: MessageContext,
    fresh: String,
    route: Route,
) -> bool {
    let id = session_id(context, fresh);
    &&& after.wf()
    &&& route.stream_id@ == id
    &&& route.context == (if context.spec_stream_id() is Some {
        context
    } else {
        context.spec_with_stream_id(fresh)
    })
    &&& route.created == !before@.contains_key(id)
    &&& route.created ==> {
        &&& route.token == before.spec_next()
        &&& after.spec_next() == before.spec_next() + 1
        &&& after@ == before@.insert(id, route.token)
    }
    &&& !route.created ==> route.token == before@[id] && after == before
}

/// Finds the session of a message.
pub fn route_message(pending: &mut PendingTable, context: MessageContext, fresh: String) -> (route:
    Route)
    requires
        old(pending).wf(),
        old(pending).spec_next() < u64::MAX,
    ensures
        routed(*old(pending), *final(pending), context, fresh, route),
{
    let known: Option<String> = match context.stream_id() {
        Some(id) => Some(id.clone()),
        None => None,
    };
    let (context, stream_id) = match known {
        Some(id) => (context, id),
        None => (context.with_stream_id(fresh.clone()), fresh),
    };
    let (token, created) = pending.get_or_create(stream_id.clone());
    Route { context, stream_id, token, created }
}

/// A session that began opens its call under a stream id of the call's own, in the
/// context that `begin_request` returned otherwise; it is active before the call is
/// opened, and the call is measured if and only if metrics are.
pub proof fn law_call_goes_out_under_its_own_id<T, Res>(
    timed: bool,
    context: MessageContext,
    call_id: String,
)
    ensures
        ({
            let asked = session_call::<T, Res>(timed, context, call_id);
            &&& asked.len() == (if timed {
                3int
            } else {
                2
            })
            &&& asked[0] == Action::<Payload<T>, (), Res>::Record(Metric::ActiveUp)
            &&& timed ==> asked[1] == Action::<Payload<T>, (), Res>::Record(Metric::CallStarted)
            &&& asked.last() matches Action::Call { context: out, .. } && {
                &&& out.spec_stream_id() == Some(call_id)
                &&& out.same_but_stream(&context)
            }
        }),
{
    reveal(session_call);
    law_only_the_stream_id_changes(context, call_id, call_id);
}

/// A session ends with `end_request` in its own context, then counts once, and gives up
/// its entry last of all.
pub proof fn law_session_end_is_in_order<T, Req, Res>(
    timed: bool,
    context: MessageContext,
    ok: bool,
)
    ensures
        ({
            let end = session_end::<T, Req, Res>(timed, context, ok);
            let counted = |kind: Metric| Action::<Payload<T>, Req, Res>::Record(kind);
            &&& end[0] == (Action::<Payload<T>, Req, Res>::EndRequest { context })
            &&& end[1] == counted(Metric::ActiveDown)
            &&& end.last() == Action::<Payload<T>, Req, Res>::Forget
            &&& end.len() == (if timed {
                6int
            } else {
                4
            })
            &&& timed ==> {
                &&& end[2] == counted(Metric::Duration)
                &&& end[3] == counted(
                    if ok {
                        Metric::MessagesTotal
                    } else {
                        Metric::RequestError
                    },
                )
                &&& end[4] == counted(
                    if ok {
                        Metric::CallSucceeded
                    } else {
                        Metric::CallFailed
                    },
                )
            }
            &&& !timed ==> end[2] == counted(
                if ok {
                    Metric::MessagesTotal
                } else {
                    Metric::RequestError
                },
            )
        }),
{
    reveal(session_end);
    reveal(request_end);
}

/// Messages with one stream id go to one session: a message finds the session that an
/// earlier one opened, under the same token, and opens none of its own; a message with
/// another stream id goes to another. No route touches the entries of other sessions.
pub proof fn law_one_session_per_stream(
    before: PendingTable,
    between: PendingTable,
    after: PendingTable,
    first: (MessageContext, String, Route),
    second: (MessageContext, String, Route),
)
    requires
        before.wf(),
        routed(before, between, first.0, first.1, first.2),
        routed(between, after, second.0, second.1, second.2),
    ensures
        first.2.stream_id@ == second.2.stream_id@ ==> {
            &&& second.2.token == first.2.token
            &&& !second.2.created
            &&& after == between
        },
        first.2.stream_id@ != second.2.stream_id@ && second.2.created ==> second.2.token
            != first.2.token,
        first.0.spec_stream_id() matches Some(id) ==> {
            &&& first.2.stream_id@ == id@
            &&& first.2.context == first.0
        },
        first.0.spec_stream_id() is None ==> {
            &&& first.2.stream_id@ == first.1@
            &&& first.2.context.spec_stream_id() == Some(first.1)
            &&& first.2.context.same_but_stream(&first.0)
        },
        first.2.created ==> !before@.contains_key(first.2.stream_id@),
        between@.contains_key(first.2.stream_id@),
        between@[first.2.stream_id@] == first.2.token,
        forall|id: Seq<char>|
            id != first.2.stream_id@ ==> (#[trigger] between@.contains_key(id)
                <==> before@.contains_key(id)) && (before@.contains_key(id) ==> between@[id]
                == before@[id]),
{
    law_only_the_stream_id_changes(first.0, first.1, first.1);
    if between@.contains_key(first.2.stream_id@) {
        between.lemma_token_given(first.2.stream_id@);
    }
}

} // verus!
