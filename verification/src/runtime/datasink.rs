//! What a sink endpoint hands back into the graph.
use vstd::prelude::*;

use crate::runtime::common::{Emission, MessageContext};
use crate::runtime::stream::Stream;

verus! {

/// Writes results and errors of a sink endpoint to the streams of its sink.
pub struct SinkStreamContext<R, E> {
    result_stream: Stream<R>,
    error_stream: Stream<E>,
}

impl<R, E> Clone for SinkStreamContext<R, E> {
    fn clone(&self) -> (copy: SinkStreamContext<R, E>)
        ensures
            copy == *self,
    {
        SinkStreamContext { result_stream: self.result_stream, error_stream: self.error_stream }
    }
}

impl<R, E> SinkStreamContext<R, E> {
    pub closed spec fn spec_result_stream(&self) -> Stream<R> {
        self.result_stream
    }

    pub closed spec fn spec_error_stream(&self) -> Stream<E> {
        self.error_stream
    }

    pub fn new(result_stream: Stream<R>, error_stream: Stream<E>) -> (context: Self)
        ensures
            context.spec_result_stream() == result_stream,
            context.spec_error_stream() == error_stream,
    {
        SinkStreamContext { result_stream, error_stream }
    }

    pub fn result_stream(&self) -> (stream: Stream<R>)
        ensures
            stream == self.spec_result_stream(),
    {
        self.result_stream
    }

    /// Writes a result.
    pub fn collect(&self, context: MessageContext, value: R) -> (emission: Emission<R>)
        ensures
            emission.stream == self.spec_result_stream(),
            emission.context == context,
            emission.payload@ == value,
    {
        self.result_stream.collector().out(context, value)
    }

    /// Writes an error.
    pub fn error_collect(&self, context: MessageContext, value: E) -> (emission: Emission<E>)
        ensures
            emission.stream == self.spec_error_stream(),
            emission.context == context,
            emission.payload@ == value,
    {
        self.error_stream.collector().out(context, value)
    }
}

} // verus!
