//! Inputs: where messages enter the graph.
use vstd::prelude::*;

use crate::operators::error::with_error_stream;
use crate::runtime::common::{Emission, MessageContext, Payload};
use crate::runtime::config::{InputStreamConfig, RuntimeConfig, RuntimeStreamConfig};
use crate::runtime::environment::RuntimeEnvironment;
use crate::runtime::error::RuntimeResult;
use crate::runtime::stream::{attached, Stream};

verus! {

/// The endpoint that the configuration gives input stream `id`; zero when the
/// stream is not configured as an input.
pub open spec fn input_endpoint(config: RuntimeConfig, id: i32) -> i32 {
    match config.spec_stream_config(id) {
        Some(RuntimeStreamConfig::Input(input)) => input.endpoint_id,
        _ => 0,
    }
}

/// The endpoint that the configuration gives to an input stream.
pub fn endpoint_of(stream: i32, environment: &RuntimeEnvironment) -> (endpoint: i32)
    ensures
        endpoint == input_endpoint(environment@.config, stream),
{
    match environment.runtime_config().stream_config(stream) {
        Some(RuntimeStreamConfig::Input(config)) => config.endpoint_id,
        _ => 0,
    }
}

/// An input whose requests may wait for results. `C` consumes the results.
pub struct InputStream<T, R, E, C> {
    stream: Stream<T>,
    result_source: Option<Stream<R>>,
    result_consumer: Option<C>,
    error_stream: Stream<E>,
}

/// A call that settles where results come from or where they go. A source may be
/// refused.
pub ghost enum ResultCall<R, C> {
    Source { source: Stream<R>, accepted: bool },
    Consumer(C),
}

/// Where the results of an input come from, and where they go.
pub ghost struct Results<R, C> {
    pub source: Option<Stream<R>>,
    pub consumer: Option<C>,
}

impl<R, C> Results<R, C> {
    pub open spec fn after(self, call: ResultCall<R, C>) -> Results<R, C> {
        match call {
            ResultCall::Source { source, accepted } => if accepted {
                Results { source: Some(source), ..self }
            } else {
                self
            },
            ResultCall::Consumer(consumer) => Results { consumer: Some(consumer), ..self },
        }
    }

    /// After some calls, in their order.
    pub open spec fn after_all(self, calls: Seq<ResultCall<R, C>>) -> Results<R, C>
        decreases calls.len(),
    {
        if calls.len() == 0 {
            self
        } else {
            self.after_all(calls.drop_last()).after(calls.last())
        }
    }
}

/// The last source that was accepted in some calls, if any was.
pub open spec fn latest_source<R, C>(calls: Seq<ResultCall<R, C>>) -> Option<Stream<R>>
    decreases calls.len(),
{
    if calls.len() == 0 {
        None
    } else {
        match calls.last() {
            ResultCall::Source { source, accepted: true } => Some(source),
            _ => latest_source(calls.drop_last()),
        }
    }
}

/// The last consumer that was set in some calls, if any was.
pub open spec fn latest_consumer<R, C>(calls: Seq<ResultCall<R, C>>) -> Option<C>
    decreases calls.len(),
{
    if calls.len() == 0 {
        None
    } else {
        match calls.last() {
            ResultCall::Consumer(consumer) => Some(consumer),
            _ => latest_consumer(calls.drop_last()),
        }
    }
}

impl<T, R, E, C> InputStream<T, R, E, C> {
    /// Where results come from and where they go.
    pub open spec fn results(&self) -> Results<R, C> {
        Results { source: self.spec_result_source(), consumer: self.spec_result_consumer() }
    }

    pub closed spec fn spec_stream(&self) -> Stream<T> {
        self.stream
    }

    pub closed spec fn spec_error_stream(&self) -> Stream<E> {
        self.error_stream
    }

    /// The stream that results come from.
    pub closed spec fn spec_result_source(&self) -> Option<Stream<R>> {
        self.result_source
    }

    pub closed spec fn spec_result_consumer(&self) -> Option<C> {
        self.result_consumer
    }

    /// Adds an input and its error output.
    pub fn new(config: InputStreamConfig, environment: &mut RuntimeEnvironment) -> (input:
        InputStream<T, R, E, C>)
        requires
            config.stream.id != i32::MIN,
        ensures
            final(environment)@ == with_error_stream(
                old(environment)@,
                config.stream.id,
            ).with_stream(config.stream.id, config.stream.id, config.stream.name@, None),
            input.spec_stream().newest(final(environment)@),
            input.spec_stream().spec_id() == config.stream.id,
            input.spec_error_stream().belongs(final(environment)@),
            input.spec_error_stream().spec_id() == -config.stream.id,
            input.spec_result_source() is None,
            input.spec_result_consumer() is None,
    {
        let error_stream: Stream<E> = Stream::with_ids(
            -config.stream.id,
            config.stream.id,
            environment,
        );
        let stream: Stream<T> = Stream::new(&config.stream, environment);
        InputStream { stream, result_source: None, result_consumer: None, error_stream }
    }

    pub fn stream(&self) -> (stream: &Stream<T>)
        ensures
            *stream == self.spec_stream(),
    {
        &self.stream
    }

    pub fn endpoint_id(&self, environment: &RuntimeEnvironment) -> (endpoint: i32)
        ensures
            endpoint == input_endpoint(environment@.config, self.spec_stream().spec_id()),
    {
        endpoint_of(self.stream.id(), environment)
    }

    pub fn error_stream(&self) -> (stream: &Stream<E>)
        ensures
            *stream == self.spec_error_stream(),
    {
        &self.error_stream
    }

    /// The stream that results come from, once it is set.
    pub fn result_stream(&self) -> (stream: Option<Stream<R>>)
        ensures
            stream == self.spec_result_source(),
    {
        self.result_source
    }

    /// Installs the consumer of results, in place of an earlier one.
    pub fn set_result_consumer(&mut self, consumer: C)
        ensures
            final(self).results() == old(self).results().after(ResultCall::Consumer(consumer)),
            final(self).spec_stream() == old(self).spec_stream(),
            final(self).spec_error_stream() == old(self).spec_error_stream(),
    {
        self.result_consumer = Some(consumer);
    }

    /// Lets `source` hand its messages back to this input as results.
    pub fn set_source(&mut self, source: &Stream<R>, environment: &mut RuntimeEnvironment) -> (
        result: RuntimeResult<()>)
        requires
            source.belongs(old(environment)@),
        ensures
            attached(
                *source,
                old(environment)@,
                old(environment)@,
                old(self).spec_stream().spec_id(),
                final(environment)@,
                result,
            ),
            final(self).results() == old(self).results().after(
                (ResultCall::Source { source: *source, accepted: result is Ok }),
            ),
            final(self).spec_stream() == old(self).spec_stream(),
            final(self).spec_error_stream() == old(self).spec_error_stream(),
    {
        match source.try_set_consumer(environment, self.stream.id()) {
            Ok(_) => {
                self.result_source = Some(*source);
                Ok(())
            },
            Err(error) => Err(error),
        }
    }

    /// Writes a new value to the graph.
    pub fn consume(&self, context: MessageContext, value: T) -> (emission: Emission<T>)
        ensures
            emission.stream == self.spec_stream(),
            emission.context == context,
            emission.payload@ == value,
    {
        self.consume_payload(context, Payload::new(value))
    }

    /// Writes a payload to the graph.
    pub fn consume_payload(&self, context: MessageContext, payload: Payload<T>) -> (emission:
        Emission<T>)
        ensures
            emission == (Emission { stream: self.spec_stream(), context, payload }),
    {
        self.stream.collector().out_payload(context, payload)
    }

    /// Hands a result to the consumer of results. Without one it is dropped.
    pub fn consume_result(&self, context: MessageContext, payload: Payload<R>) -> (handed: Option<
        (&C, MessageContext, Payload<R>),
    >)
        ensures
            match handed {
                Some((consumer, to_context, to_payload)) => {
                    &&& self.spec_result_consumer() == Some(*consumer)
                    &&& to_context == context
                    &&& to_payload == payload
                },
                None => self.spec_result_consumer() is None,
            },
    {
        match &self.result_consumer {
            Some(consumer) => Some((consumer, context, payload)),
            None => None,
        }
    }
}

/// However often sources and consumers of results are set, and in whatever order,
/// results come from the last source that was accepted and go to the last consumer. A
/// refused source changes nothing, and an input that has a source never loses it.
pub proof fn law_latest_source_and_consumer<R, C>(
    start: Results<R, C>,
    calls: Seq<ResultCall<R, C>>,
)
    ensures
        start.after_all(calls).source == (match latest_source(calls) {
            Some(source) => Some(source),
            None => start.source,
        }),
        start.after_all(calls).consumer == (match latest_consumer(calls) {
            Some(consumer) => Some(consumer),
            None => start.consumer,
        }),
        start.source is Some ==> start.after_all(calls).source is Some,
    decreases calls.len(),
{
    if calls.len() > 0 {
        law_latest_source_and_consumer(start, calls.drop_last());
    }
}

/// An input belongs to the endpoint that its configuration names, and to none where it is not
/// configured as an input.
pub proof fn law_inputs_are_configured(config: RuntimeConfig, id: i32)
    ensures
        match config.spec_stream_config(id) {
            Some(RuntimeStreamConfig::Input(input)) => input_endpoint(config, id)
                == input.endpoint_id,
            _ => input_endpoint(config, id) == 0,
        },
{
}

} // verus!
