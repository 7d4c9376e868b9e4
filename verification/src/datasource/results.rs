//! Results that come back to a request while it is pending.
use vstd::prelude::*;

use crate::datasource::grpc::callback_store::CallbackStore;
use crate::runtime::common::MessageContext;
use crate::runtime::request::Metric;
use crate::runtime::store::PendingTable;

verus! {

/// Lets a handler register callbacks for results and say that its request is done.
pub struct ResultContext<C> {
    callbacks: CallbackStore<C>,
    done: bool,
}

impl<C> ResultContext<C> {
    pub closed spec fn spec_callbacks(&self) -> Map<Seq<char>, C> {
        self.callbacks@
    }

    pub closed spec fn spec_done(&self) -> bool {
        self.done
    }

    pub closed spec fn wf(&self) -> bool {
        self.callbacks.wf()
    }

    pub fn new() -> (context: ResultContext<C>)
        ensures
            context.wf(),
            context.spec_callbacks() == Map::<Seq<char>, C>::empty(),
            !context.spec_done(),
    {
        ResultContext { callbacks: CallbackStore::new(), done: false }
    }

    /// Registers the callback for the result with `message_id`, in place of an earlier
    /// one.
    pub fn set_result_callback(&mut self, message_id: String, callback: C)
        requires
            old(self).wf(),
        ensures
            final(self).wf(),
            final(self).spec_callbacks() == old(self).spec_callbacks().insert(
                message_id@,
                callback,
            ),
            final(self).spec_done() == old(self).spec_done(),
    {
        let _previous = self.callbacks.insert(message_id, callback);
    }

    /// Marks the request as done.
    pub fn done(&mut self)
        requires
            old(self).wf(),
        ensures
            final(self).wf(),
            final(self).spec_done(),
            final(self).spec_callbacks() == old(self).spec_callbacks(),
    {
        self.done = true;
    }

    pub fn is_done(&self) -> (done: bool)
        ensures
            done == self.spec_done(),
    {
        self.done
    }

    /// The callback for a result. A result without one is counted as unknown.
    pub fn find_callback(&self, message_id: &str) -> (found: Result<&C, Metric>)
        requires
            self.wf(),
        ensures
            match found {
                Ok(callback) => {
                    &&& self.spec_callbacks().contains_key(message_id@)
                    &&& *callback == self.spec_callbacks()[message_id@]
                },
                Err(metric) => {
                    &&& !self.spec_callbacks().contains_key(message_id@)
                    &&& metric == Metric::UnknownMessageId
                },
            },
    {
        match self.callbacks.get(message_id) {
            Some(callback) => Ok(callback),
            None => Err(Metric::UnknownMessageId),
        }
    }

    /// Takes what a callback returned. One that has consumed its result is removed;
    /// if it is gone already, the result is counted as a duplicate. One that wants
    /// more results stays.
    pub fn settle_callback(&mut self, message_id: &str, consumed: bool) -> (metric: Option<Metric>)
        requires
            old(self).wf(),
        ensures
            final(self).wf(),
            final(self).spec_done() == old(self).spec_done(),
            final(self).spec_callbacks() == (if consumed {
                old(self).spec_callbacks().remove(message_id@)
            } else {
                old(self).spec_callbacks()
            }),
            metric == (if consumed && !old(self).spec_callbacks().contains_key(message_id@) {
                Some(Metric::DuplicateMessageId)
            } else {
                None
            }),
    {
        if !consumed {
            return None;
        }
        match self.callbacks.remove(message_id) {
            Some(_) => None,
            None => Some(Metric::DuplicateMessageId),
        }
    }
}

/// The pending request that a result belongs to.
pub struct PendingSession {
    pub stream_id: String,
    pub token: u64,
}

/// Finds the pending request of a result, by the stream id of its context. A result
/// without a stream id, or for a request that is not pending, is counted and
/// dropped.
pub fn find_session(pending: &PendingTable, context: &MessageContext) -> (found: Result<
    PendingSession,
    Metric,
>)
    requires
        pending.wf(),
    ensures
        match found {
            Ok(session) => {
                &&& context.stream_text() == Some(session.stream_id@)
                &&& pending@.contains_key(session.stream_id@)
                &&& session.token == pending@[session.stream_id@]
            },
            Err(metric) => match context.stream_text() {
                None => metric == Metric::MissingStreamId,
                Some(id) => !pending@.contains_key(id) && metric == Metric::LateResult,
            },
        },
{
    match context.stream_id() {
        None => Err(Metric::MissingStreamId),
        Some(id) => match pending.get(id.as_str()) {
            None => Err(Metric::LateResult),
            Some(token) => Ok(PendingSession { stream_id: id.clone(), token }),
        },
    }
}

/// Looks once more, now that nothing can end the request in between: a result whose
/// request has left or was replaced meanwhile is late.
pub fn confirm_session(pending: &PendingTable, session: &PendingSession) -> (result: Result<
    (),
    Metric,
>)
    requires
        pending.wf(),
    ensures
        ({
            let current = pending@.contains_key(session.stream_id@) && pending@[session.stream_id@]
                == session.token;
            result == (if current {
                Ok::<(), Metric>(())
            } else {
                Err(Metric::LateResult)
            })
        }),
{
    match pending.get(session.stream_id.as_str()) {
        Some(token) => if token == session.token {
            Ok(())
        } else {
            Err(Metric::LateResult)
        },
        None => Err(Metric::LateResult),
    }
}

/// A call that changes what a request knows of its results.
pub ghost enum ResultsCall<C> {
    /// A callback is registered.
    Registered { message_id: Seq<char>, callback: C },
    /// A callback returned.
    Settled { message_id: Seq<char>, consumed: bool },
    /// The request is done.
    Done,
}

/// The callbacks after some calls, and whether the request is done.
pub open spec fn after_calls<C>(calls: Seq<ResultsCall<C>>) -> (Map<Seq<char>, C>, bool)
    decreases calls.len(),
{
    if calls.len() == 0 {
        (Map::empty(), false)
    } else {
        let (callbacks, done) = after_calls(calls.drop_last());
        match calls.last() {
            ResultsCall::Registered { message_id, callback } => (
                callbacks.insert(message_id, callback),
                done,
            ),
            ResultsCall::Settled { message_id, consumed } => if consumed {
                (callbacks.remove(message_id), done)
            } else {
                (callbacks, done)
            },
            ResultsCall::Done => (callbacks, true),
        }
    }
}

/// The callback that was registered last for a message id, unless it has consumed its
/// result since.
pub open spec fn latest_callback<C>(calls: Seq<ResultsCall<C>>, id: Seq<char>) -> Option<C>
    decreases calls.len(),
{
    if calls.len() == 0 {
        None
    } else {
        match calls.last() {
            ResultsCall::Registered { message_id, callback } if message_id == id => Some(callback),
            ResultsCall::Settled { message_id, consumed: true } if message_id == id => None,
            _ => latest_callback(calls.drop_last(), id),
        }
    }
}

/// In whatever order callbacks are registered and return, the result with a message id
/// goes to the callback that was registered last for it, as long as that wants results;
/// a request that is done stays done.
pub proof fn law_results_go_to_the_latest_callback<C>(calls: Seq<ResultsCall<C>>, id: Seq<char>)
    ensures
        match latest_callback(calls, id) {
            Some(callback) => {
                &&& after_calls(calls).0.contains_key(id)
                &&& after_calls(calls).0[id] == callback
            },
            None => !after_calls(calls).0.contains_key(id),
        },
        after_calls(calls).1 <==> calls.contains(ResultsCall::Done),
    decreases calls.len(),
{
    if calls.len() > 0 {
        let before = calls.drop_last();
        law_results_go_to_the_latest_callback(before, id);
        if before.contains(ResultsCall::Done) {
            let i = choose|i: int| 0 <= i < before.len() && before[i] == ResultsCall::<C>::Done;
            assert(calls[i] == ResultsCall::<C>::Done);
        }
        if calls.contains(ResultsCall::Done) && !(calls.last() is Done) {
            let i = choose|i: int| 0 <= i < calls.len() && calls[i] == ResultsCall::<C>::Done;
            assert(before[i] == ResultsCall::<C>::Done);
        }
        if calls.last() is Done {
            assert(calls[calls.len() - 1] == ResultsCall::<C>::Done);
        }
    }
}

} // verus!
