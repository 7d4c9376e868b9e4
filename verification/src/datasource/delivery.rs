//! Delivering a result to the request that waits for it.
use vstd::prelude::*;

use crate::datasource::results::{
    confirm_session, find_session, PendingSession, ResultContext,
};
use crate::runtime::common::MessageContext;
use crate::runtime::request::Metric;
use crate::runtime::store::PendingTable;

verus! {

/// How far the delivery of a result has come.
pub enum DeliveryPhase {
    /// The request was found. It is to be held, so that it cannot end meanwhile.
    Holding { session: PendingSession },
    /// The request is held. The handler says which message the result belongs to.
    Identifying { session: PendingSession },
    /// The callback for the message is called.
    Calling { session: PendingSession, message_id: String },
    /// The delivery is over.
    Finished,
}

/// The delivery of one result.
pub struct ResultDelivery {
    pub phase: DeliveryPhase,
}

/// The request that a context belongs to, or how a result without one is counted.
pub open spec fn session_of(pending: PendingTable, context: MessageContext) -> Result<
    (Seq<char>, u64),
    Metric,
> {
    match context.stream_text() {
        None => Err(Metric::MissingStreamId),
        Some(id) => if pending@.contains_key(id) {
            Ok((id, pending@[id]))
        } else {
            Err(Metric::LateResult)
        },
    }
}

/// Whether a request is still the one that is pending under its stream id.
pub open spec fn is_current(pending: PendingTable, session: PendingSession) -> bool {
    pending@.contains_key(session.stream_id@) && pending@[session.stream_id@] == session.token
}

impl ResultDelivery {
    /// Looks for the request of a result. A result without a stream id, or for a
    /// request that is not pending, is counted and goes no further.
    pub fn begin(pending: &PendingTable, context: &MessageContext) -> (begun: (
        ResultDelivery,
        Option<Metric>,
    ))
        requires
            pending.wf(),
        ensures
            match session_of(*pending, *context) {
                Ok((id, token)) => {
                    &&& begun.0.phase matches DeliveryPhase::Holding { session } && session.stream_id@
                        == id && session.token == token
                    &&& begun.1 is None
                },
                Err(metric) => begun.0.phase is Finished && begun.1 == Some(metric),
            },
    {
        match find_session(pending, context) {
            Ok(session) => (
                ResultDelivery { phase: DeliveryPhase::Holding { session } },
                None,
            ),
            Err(metric) => (ResultDelivery { phase: DeliveryPhase::Finished }, Some(metric)),
        }
    }

    /// Goes on once the request is held. One that has left meanwhile, or was replaced,
    /// does not get the result, which is counted as late.
    pub fn held(self, pending: &PendingTable) -> (outcome: (ResultDelivery, Option<Metric>))
        requires
            pending.wf(),
            self.phase is Holding,
        ensures
            match self.phase {
                DeliveryPhase::Holding { session } => if is_current(*pending, session) {
                    outcome.0.phase == (DeliveryPhase::Identifying { session }) && outcome.1 is None
                } else {
                    outcome.0.phase is Finished && outcome.1 == Some(Metric::LateResult)
                },
                _ => true,
            },
    {
        match self.phase {
            DeliveryPhase::Holding { session } => match confirm_session(pending, &session) {
                Ok(_) => (ResultDelivery { phase: DeliveryPhase::Identifying { session } }, None),
                Err(metric) => (
                    ResultDelivery { phase: DeliveryPhase::Finished },
                    Some(metric),
                ),
            },
            phase => (ResultDelivery { phase }, None),
        }
    }

    /// Goes on once the handler said which message the result belongs to. Without a
    /// callback for it the result is counted as unknown.
    pub fn identified<C>(self, results: &ResultContext<C>, message_id: String) -> (outcome: (
        ResultDelivery,
        Option<Metric>,
    ))
        requires
            results.wf(),
            self.phase is Identifying,
        ensures
            match self.phase {
                DeliveryPhase::Identifying { session } => if results.spec_callbacks().contains_key(
                    message_id@,
                ) {
                    outcome.0.phase == (DeliveryPhase::Calling { session, message_id })
                        && outcome.1 is None
                } else {
                    outcome.0.phase is Finished && outcome.1 == Some(Metric::UnknownMessageId)
                },
                _ => true,
            },
    {
        match self.phase {
            DeliveryPhase::Identifying { session } => {
                let found: Result<(), Metric> = match results.find_callback(message_id.as_str()) {
                    Ok(_) => Ok(()),
                    Err(metric) => Err(metric),
                };
                match found {
                    Ok(_) => (
                        ResultDelivery { phase: DeliveryPhase::Calling { session, message_id } },
                        None,
                    ),
                    Err(metric) => (
                        ResultDelivery { phase: DeliveryPhase::Finished },
                        Some(metric),
                    ),
                }
            },
            phase => (ResultDelivery { phase }, None),
        }
    }

    /// Ends the delivery with what the callback returned. A callback that has consumed
    /// the result is removed; if another result took it before, this one is counted as
    /// a duplicate.
    pub fn called<C>(self, results: &mut ResultContext<C>, consumed: bool) -> (outcome: (
        ResultDelivery,
        Option<Metric>,
    ))
        requires
            old(results).wf(),
            self.phase is Calling,
        ensures
            final(results).wf(),
            final(results).spec_done() == old(results).spec_done(),
            outcome.0.phase is Finished,
            match self.phase {
                DeliveryPhase::Calling { message_id, .. } => {
                    &&& final(results).spec_callbacks() == (if consumed {
                        old(results).spec_callbacks().remove(message_id@)
                    } else {
                        old(results).spec_callbacks()
                    })
                    &&& outcome.1 == (if consumed && !old(results).spec_callbacks().contains_key(
                        message_id@,
                    ) {
                        Some(Metric::DuplicateMessageId)
                    } else {
                        None
                    })
                },
                _ => true,
            },
    {
        match self.phase {
            DeliveryPhase::Calling { message_id, .. } => {
                let metric = results.settle_callback(message_id.as_str(), consumed);
                (ResultDelivery { phase: DeliveryPhase::Finished }, metric)
            },
            _ => (ResultDelivery { phase: DeliveryPhase::Finished }, None),
        }
    }
}

/// A request that has left the pending ones gets no result: one that was found before
/// it left is not confirmed afterwards, even if another request stands under its
/// stream id by then.
pub proof fn law_left_request_gets_no_result(
    before: PendingTable,
    after: PendingTable,
    context: MessageContext,
    session: PendingSession,
    successor: Option<u64>,
)
    requires
        before.wf(),
        session_of(before, context) == Ok::<(Seq<char>, u64), Metric>(
            (session.stream_id@, session.token),
        ),
        after@ == (match successor {
            Some(token) => before@.remove(session.stream_id@).insert(session.stream_id@, token),
            None => before@.remove(session.stream_id@),
        }),
        successor matches Some(token) ==> token >= before.spec_next(),
    ensures
        !is_current(after, session),
{
    before.lemma_token_given(session.stream_id@);
}

/// A result goes to the request that is pending under the stream id of its context, and only
/// if there is one: without a stream id it is counted as such, without a request as late.
pub proof fn law_result_finds_its_request(pending: PendingTable, context: MessageContext)
    ensures
        context.spec_stream_id() is None ==> session_of(pending, context) == Err::<
            (Seq<char>, u64),
            Metric,
        >(Metric::MissingStreamId),
        context.spec_stream_id() matches Some(id) ==> {
            &&& pending@.contains_key(id@) ==> session_of(pending, context) == Ok::<
                (Seq<char>, u64),
                Metric,
            >((id@, pending@[id@]))
            &&& !pending@.contains_key(id@) ==> session_of(pending, context) == Err::<
                (Seq<char>, u64),
                Metric,
            >(Metric::LateResult)
        },
{
}

/// A request that was found stays the one that is pending as long as nothing is entered or
/// taken out under its stream id, whatever happens under others.
pub proof fn law_found_request_stays_current(
    before: PendingTable,
    after: PendingTable,
    context: MessageContext,
    session: PendingSession,
)
    requires
        session_of(before, context) == Ok::<(Seq<char>, u64), Metric>(
            (session.stream_id@, session.token),
        ),
    ensures
        is_current(before, session),
        after@.contains_key(session.stream_id@) && after@[session.stream_id@]
            == before@[session.stream_id@] <==> is_current(after, session),
{
}

} // verus!
