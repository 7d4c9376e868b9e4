//! Sinks with a handler of the service's own.
use vstd::prelude::*;

use crate::datasink::direct::{DirectPhase, DirectRequest};
use crate::operators::sink::SinkStream;
use crate::runtime::common::{MessageContext, Payload};
use crate::runtime::environment::{configured_name, RuntimeEnvironment};
use crate::runtime::error::RuntimeResult;
use crate::runtime::lookup::Side;
use crate::runtime::metrics::{endpoint_scope, is_endpoint_scope, MetricScope};
use crate::runtime::request::{one, Action};
use crate::runtime::stream::Stream;

verus! {

/// The consumer of a local sink. `K` is a callback that hears of every message that
/// is done.
pub struct CustomEndpointConsumer<R, K> {
    pub result_stream: Stream<R>,
    pub scope: MetricScope,
    pub timed: bool,
    pub sink_callback: Option<K>,
}

impl<R, K> CustomEndpointConsumer<R, K> {
    /// Installs the callback, in place of an earlier one.
    pub fn set_sink_callback(&mut self, callback: K)
        ensures
            final(self).sink_callback == Some(callback),
            final(self).result_stream == old(self).result_stream,
            final(self).scope == old(self).scope,
            final(self).timed == old(self).timed,
    {
        self.sink_callback = Some(callback);
    }

    /// The callback, if one is installed.
    pub fn sink_callback(&self) -> (callback: Option<&K>)
        ensures
            match callback {
                Some(k) => self.sink_callback == Some(*k),
                None => self.sink_callback is None,
            },
    {
        self.sink_callback.as_ref()
    }

    /// Opens a request for a message that the handler gave the stream id
    /// `stream_id`.
    pub fn consume<T, X>(&self, context: MessageContext, stream_id: String, value: Payload<T>) -> (
        opened: (DirectRequest<T, X>, Vec<Action<Payload<T>, (), ()>>))
        ensures
            opened.0 == (DirectRequest::<T, X> {
                timed: self.timed,
                phase: DirectPhase::Beginning { value },
            }),
            opened.1@ == one(
                Action::<Payload<T>, (), ()>::BeginRequest {
                    context: context.spec_with_stream_id(stream_id),
                },
            ),
    {
        DirectRequest::open(self.timed, context, stream_id, value)
    }
}

/// Makes the consumer of a local sink and installs it on `stream` once its instruments
/// are set up: `instruments` is what that came to. What the handler hands back goes to
/// the sink's error stream.
pub fn make_custom_endpoint_consumer<T, R, K>(
    stream: &mut SinkStream<T, R, CustomEndpointConsumer<R, K>>,
    environment: &RuntimeEnvironment,
    instruments: RuntimeResult<()>,
) -> (result: RuntimeResult<()>)
    ensures
        final(stream).spec_id() == old(stream).spec_id(),
        final(stream).spec_error_stream() == old(stream).spec_error_stream(),
        match instruments {
            Ok(_) => {
                &&& result is Ok
                &&& final(stream).spec_consumer() matches Some(consumer) && {
                    &&& consumer.sink_callback is None
                    &&& consumer.result_stream == old(stream).spec_error_stream()
                    &&& consumer.timed == environment@.metrics
                    &&& is_endpoint_scope(
                        consumer.scope,
                        Side::Sink,
                        "custom"@,
                        configured_name(environment@.config, old(stream).spec_id()),
                        Some("local"@),
                    )
                }
            },
            Err(failure) => {
                &&& result is Err
                &&& result->Err_0@ == failure@
                &&& final(stream).spec_consumer() == old(stream).spec_consumer()
            },
        },
{
    match instruments {
        Ok(_) => {},
        Err(error) => return Err(error),
    }
    let name = stream.name(environment);
    let scope = endpoint_scope(Side::Sink, "custom", name.as_str(), Some("local"));
    let consumer = CustomEndpointConsumer {
        result_stream: *stream.error_stream(),
        scope,
        timed: environment.metrics_enabled(),
        sink_callback: None,
    };
    stream.set_sink_consumer(consumer)
}

} // verus!
