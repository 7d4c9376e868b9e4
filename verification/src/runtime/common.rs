//! Messages: a context beside a shared payload.
use std::sync::Arc;

use vstd::pervasive::*;
use vstd::prelude::*;

use crate::runtime::stream::Stream;

verus! {

/// What travels beside a payload.
pub struct MessageContext {
    stream_id: Option<String>,
    cancelled: bool,
    sampled: bool,
    remaining: Option<u128>,
}

impl MessageContext {
    pub closed spec fn spec_stream_id(&self) -> Option<String> {
        self.stream_id
    }

    pub closed spec fn spec_cancelled(&self) -> bool {
        self.cancelled
    }

    pub closed spec fn spec_sampled(&self) -> bool {
        self.sampled
    }

    pub closed spec fn spec_remaining(&self) -> Option<u128> {
        self.remaining
    }

    /// The characters of the stream id.
    pub open spec fn stream_text(&self) -> Option<Seq<char>> {
        match self.spec_stream_id() {
            Some(id) => Some(id@),
            None => None,
        }
    }

    /// Equal in everything but the stream id.
    pub open spec fn same_but_stream(&self, other: &MessageContext) -> bool {
        &&& self.spec_cancelled() == other.spec_cancelled()
        &&& self.spec_sampled() == other.spec_sampled()
        &&& self.spec_remaining() == other.spec_remaining()
    }

    /// The same context under the stream id `id`.
    pub closed spec fn spec_with_stream_id(self, id: String) -> MessageContext {
        MessageContext { stream_id: Some(id), ..self }
    }

    /// The context of a message that carries no stream id, no deadline and no
    /// request for tracing.
    pub fn background() -> (context: MessageContext)
        ensures
            context.spec_stream_id() is None,
            !context.spec_cancelled(),
            !context.spec_sampled(),
            context.spec_remaining() is None,
    {
        MessageContext { stream_id: None, cancelled: false, sampled: false, remaining: None }
    }

    pub fn stream_id(&self) -> (id: Option<&String>)
        ensures
            match id {
                Some(text) => self.spec_stream_id() == Some(*text),
                None => self.spec_stream_id() is None,
            },
    {
        self.stream_id.as_ref()
    }

    pub fn is_cancelled(&self) -> (cancelled: bool)
        ensures
            cancelled == self.spec_cancelled(),
    {
        self.cancelled
    }

    /// Whether the message asks for tracing.
    pub fn sampling_enabled(&self) -> (sampled: bool)
        ensures
            sampled == self.spec_sampled(),
    {
        self.sampled
    }

    /// The time left until the deadline, in nanoseconds.
    pub fn remaining(&self) -> (left: Option<u128>)
        ensures
            left == self.spec_remaining(),
    {
        self.remaining
    }

    /// The same context under the stream id `id`.
    pub fn with_stream_id(self, id: String) -> (context: MessageContext)
        ensures
            context == self.spec_with_stream_id(id),
            context.spec_stream_id() == Some(id),
            context.same_but_stream(&self),
    {
        MessageContext { stream_id: Some(id), ..self }
    }

    /// The same context with the given cancellation.
    pub fn with_cancellation(self, cancelled: bool) -> (context: MessageContext)
        ensures
            context.spec_cancelled() == cancelled,
            context.spec_stream_id() == self.spec_stream_id(),
            context.spec_sampled() == self.spec_sampled(),
            context.spec_remaining() == self.spec_remaining(),
    {
        MessageContext { cancelled, ..self }
    }

    /// The same context with tracing asked for or not.
    pub fn with_sampling(self, sampled: bool) -> (context: MessageContext)
        ensures
            context.spec_sampled() == sampled,
            context.spec_stream_id() == self.spec_stream_id(),
            context.spec_cancelled() == self.spec_cancelled(),
            context.spec_remaining() == self.spec_remaining(),
    {
        MessageContext { sampled, ..self }
    }

    /// The same context with a deadline, in nanoseconds from now.
    pub fn with_remaining(self, remaining: Option<u128>) -> (context: MessageContext)
        ensures
            context.spec_remaining() == remaining,
            context.spec_stream_id() == self.spec_stream_id(),
            context.spec_cancelled() == self.spec_cancelled(),
            context.spec_sampled() == self.spec_sampled(),
    {
        MessageContext { remaining, ..self }
    }
}

impl Clone for MessageContext {
    fn clone(&self) -> (context: MessageContext)
        ensures
            context == *self,
    {
        let stream_id = match &self.stream_id {
            Some(id) => Some(id.clone()),
            None => None,
        };
        MessageContext {
            stream_id,
            cancelled: self.cancelled,
            sampled: self.sampled,
            remaining: self.remaining,
        }
    }
}

/// A value that several branches may hold at once.
pub struct Payload<T> {
    value: Arc<T>,
}

impl<T> View for Payload<T> {
    type V = T;

    closed spec fn view(&self) -> T {
        *self.value
    }
}

/// Calls `Arc::clone`: another handle to the same value.
#[verifier::external_body]
pub(crate) fn another_handle<T>(value: &Arc<T>) -> (handle: Arc<T>)
    ensures
        handle == *value,
{
    Arc::clone(value)
}

/// Calls `Arc::unwrap_or_clone`: the value itself when this is its only handle,
/// else a clone of it. Which of the two comes back depends on the other handles.
#[verifier::external_body]
fn unwrap_or_clone<T: Clone>(value: Arc<T>) -> (inner: T)
    ensures
        inner == *value || cloned(*value, inner),
{
    Arc::unwrap_or_clone(value)
}

/// A value that was taken out of a payload: the value itself or a clone of it.
pub open spec fn taken_from<T: Clone>(held: T, value: T) -> bool {
    value == held || cloned(held, value)
}

impl<T> Payload<T> {
    pub fn new(value: T) -> (payload: Payload<T>)
        ensures
            payload@ == value,
    {
        Payload { value: Arc::new(value) }
    }

    /// Reads the value.
    pub fn get(&self) -> (value: &T)
        ensures
            *value == self@,
    {
        &self.value
    }

    /// Two payloads of the same value.
    pub fn share(self) -> (pair: (Payload<T>, Payload<T>))
        ensures
            pair.0 == self,
            pair.1 == self,
    {
        let branch = another_handle(&self.value);
        (Payload { value: branch }, self)
    }

    /// The value itself, or a clone of it where others hold it too.
    pub fn into_value(self) -> (value: T) where T: Clone
        ensures
            taken_from(self@, value),
    {
        unwrap_or_clone(self.value)
    }
}

/// A message that an operator writes to a stream.
pub struct Emission<T> {
    pub stream: Stream<T>,
    pub context: MessageContext,
    pub payload: Payload<T>,
}

/// A context under another stream id has that id and is the same in everything else;
/// giving it its own id, or an id twice, changes nothing more.
pub proof fn law_only_the_stream_id_changes(context: MessageContext, first: String, second: String)
    ensures
        context.spec_with_stream_id(first).spec_stream_id() == Some(first),
        context.spec_with_stream_id(first).same_but_stream(&context),
        context.spec_with_stream_id(first).spec_cancelled() == context.spec_cancelled(),
        context.spec_with_stream_id(first).spec_sampled() == context.spec_sampled(),
        context.spec_with_stream_id(first).spec_remaining() == context.spec_remaining(),
        context.spec_with_stream_id(first).stream_text() == Some(first@),
        context.spec_with_stream_id(first).spec_with_stream_id(second)
            == context.spec_with_stream_id(second),
        context.spec_stream_id() == Some(first) ==> context.spec_with_stream_id(first) == context,
{
}

} // verus!
