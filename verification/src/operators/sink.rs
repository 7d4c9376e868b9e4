//! Sinks: where messages leave the graph.
use vstd::prelude::*;

use crate::operators::error::{
    law_error_streams_mirror_their_owner, with_error_stream, ErrorStream,
};
use crate::runtime::common::{Emission, MessageContext, Payload};
use crate::runtime::config::{
    RuntimeConfig, RuntimeStreamConfig, SinkStreamConfig, StreamConfig,
};
use crate::runtime::environment::{
    configured_name, law_streams_are_added_last, same_but_nodes, EnvironmentView,
    RuntimeEnvironment,
};
use crate::runtime::error::RuntimeResult;
use crate::runtime::stream::{attached, Stream};

verus! {

/// The endpoint that the configuration gives sink stream `id`; zero when the
/// stream is not configured as a sink.
pub open spec fn sink_endpoint(config: RuntimeConfig, id: i32) -> i32 {
    match config.spec_stream_config(id) {
        Some(RuntimeStreamConfig::Sink(sink)) => sink.endpoint_id,
        _ => 0,
    }
}

/// The graph once an output and an error output were added for `config`.
pub open spec fn with_outputs(graph: EnvironmentView, config: StreamConfig) -> EnvironmentView {
    with_error_stream(graph.with_stream(config.id, config.id, config.name@, None), config.id)
}

fn configured_sink_endpoint(environment: &RuntimeEnvironment, id: i32) -> (endpoint: i32)
    ensures
        endpoint == sink_endpoint(environment@.config, id),
{
    match environment.runtime_config().stream_config(id) {
        Some(RuntimeStreamConfig::Sink(config)) => config.endpoint_id,
        _ => 0,
    }
}

/// A sink without results. `C` is the endpoint consumer that takes its messages.
pub struct SinkStream<T, E, C> {
    id: i32,
    sink_consumer: Option<C>,
    error_stream: Stream<E>,
    takes: std::marker::PhantomData<T>,
}

impl<T, E, C> SinkStream<T, E, C> {
    pub closed spec fn spec_id(&self) -> i32 {
        self.id
    }

    pub closed spec fn spec_consumer(&self) -> Option<C> {
        self.sink_consumer
    }

    pub closed spec fn spec_error_stream(&self) -> Stream<E> {
        self.error_stream
    }

    /// Puts a sink behind `source`.
    pub fn make(
        config: &SinkStreamConfig,
        source: &Stream<T>,
        environment: &mut RuntimeEnvironment,
    ) -> (result: RuntimeResult<SinkStream<T, E, C>>)
        requires
            source.belongs(old(environment)@),
            config.stream.id != i32::MIN,
        ensures
            attached(
                *source,
                old(environment)@,
                with_error_stream(old(environment)@, config.stream.id),
                config.stream.id,
                final(environment)@,
                result,
            ),
            result matches Ok(sink) ==> {
                &&& sink.spec_id() == config.stream.id
                &&& sink.spec_consumer() is None
                &&& sink.spec_error_stream().newest(final(environment)@)
            },
    {
        let error_stream = *ErrorStream::new(&config.stream, environment).stream();
        let id: i32 = config.stream.id;
        let sink_stream = SinkStream {
            id,
            sink_consumer: None,
            error_stream,
            takes: std::marker::PhantomData,
        };
        match source.try_set_consumer(environment, id) {
            Ok(_) => Ok(sink_stream),
            Err(error) => Err(error),
        }
    }

    pub fn id(&self) -> (id: i32)
        ensures
            id == self.spec_id(),
    {
        self.id
    }

    /// The configured name of the sink.
    pub fn name(&self, environment: &RuntimeEnvironment) -> (name: String)
        ensures
            name@ == configured_name(environment@.config, self.spec_id()),
    {
        environment.stream_name(self.id)
    }

    pub fn endpoint_id(&self, environment: &RuntimeEnvironment) -> (endpoint: i32)
        ensures
            endpoint == sink_endpoint(environment@.config, self.spec_id()),
    {
        configured_sink_endpoint(environment, self.id)
    }

    pub fn error_stream(&self) -> (stream: &Stream<E>)
        ensures
            *stream == self.spec_error_stream(),
    {
        &self.error_stream
    }

    /// Installs the endpoint consumer, in place of an earlier one.
    pub fn set_sink_consumer(&mut self, consumer: C) -> (result: RuntimeResult<()>)
        ensures
            result is Ok,
            final(self).spec_consumer() == Some(consumer),
            final(self).spec_id() == old(self).spec_id(),
            final(self).spec_error_stream() == old(self).spec_error_stream(),
    {
        self.sink_consumer = Some(consumer);
        Ok(())
    }

    /// Hands a message to the endpoint consumer. Without one it is dropped.
    pub fn consume(&self, context: MessageContext, payload: Payload<T>) -> (handed: Option<
        (&C, MessageContext, Payload<T>),
    >)
        ensures
            match handed {
                Some((consumer, to_context, to_payload)) => {
                    &&& self.spec_consumer() == Some(*consumer)
                    &&& to_context == context
                    &&& to_payload == payload
                },
                None => self.spec_consumer() is None,
            },
    {
        match &self.sink_consumer {
            Some(consumer) => Some((consumer, context, payload)),
            None => None,
        }
    }
}

/// A sink whose endpoint hands results back into the graph.
pub struct SinkStreamWithResult<T, R, E, C> {
    result_stream: Stream<R>,
    sink_consumer: Option<C>,
    error_stream: Stream<E>,
    takes: std::marker::PhantomData<T>,
}

impl<T, R, E, C> SinkStreamWithResult<T, R, E, C> {
    pub closed spec fn spec_result_stream(&self) -> Stream<R> {
        self.result_stream
    }

    pub closed spec fn spec_consumer(&self) -> Option<C> {
        self.sink_consumer
    }

    pub closed spec fn spec_error_stream(&self) -> Stream<E> {
        self.error_stream
    }

    /// Puts a sink behind `source`.
    pub fn make(
        config: &SinkStreamConfig,
        source: &Stream<T>,
        environment: &mut RuntimeEnvironment,
    ) -> (result: RuntimeResult<SinkStreamWithResult<T, R, E, C>>)
        requires
            source.belongs(old(environment)@),
            config.stream.id != i32::MIN,
        ensures
            attached(
                *source,
                old(environment)@,
                with_outputs(old(environment)@, config.stream),
                config.stream.id,
                final(environment)@,
                result,
            ),
            result matches Ok(sink) ==> {
                &&& sink.spec_consumer() is None
                &&& sink.spec_result_stream().belongs(final(environment)@)
                &&& sink.spec_result_stream().spec_node() == old(environment)@.nodes.len()
                &&& sink.spec_result_stream().spec_id() == config.stream.id
                &&& sink.spec_error_stream().newest(final(environment)@)
            },
    {
        let result_stream: Stream<R> = Stream::new(&config.stream, environment);
        let error_stream = *ErrorStream::new(&config.stream, environment).stream();
        let sink_stream = SinkStreamWithResult {
            result_stream,
            sink_consumer: None,
            error_stream,
            takes: std::marker::PhantomData,
        };
        match source.try_set_consumer(environment, result_stream.id()) {
            Ok(_) => Ok(sink_stream),
            Err(error) => Err(error),
        }
    }

    pub fn stream(&self) -> (stream: &Stream<R>)
        ensures
            *stream == self.spec_result_stream(),
    {
        &self.result_stream
    }

    pub fn id(&self) -> (id: i32)
        ensures
            id == self.spec_result_stream().spec_id(),
    {
        self.result_stream.id()
    }

    pub fn name(&self, environment: &RuntimeEnvironment) -> (name: String)
        requires
            self.spec_result_stream().belongs(environment@),
        ensures
            name@ == environment@.nodes[self.spec_result_stream().spec_node()].name,
    {
        self.result_stream.name(environment)
    }

    pub fn endpoint_id(&self, environment: &RuntimeEnvironment) -> (endpoint: i32)
        ensures
            endpoint == sink_endpoint(environment@.config, self.spec_result_stream().spec_id()),
    {
        configured_sink_endpoint(environment, self.result_stream.id())
    }

    pub fn error_stream(&self) -> (stream: &Stream<E>)
        ensures
            *stream == self.spec_error_stream(),
    {
        &self.error_stream
    }

    /// Installs the endpoint consumer, in place of an earlier one.
    pub fn set_sink_consumer(&mut self, consumer: C) -> (result: RuntimeResult<()>)
        ensures
            result is Ok,
            final(self).spec_consumer() == Some(consumer),
            final(self).spec_result_stream() == old(self).spec_result_stream(),
            final(self).spec_error_stream() == old(self).spec_error_stream(),
    {
        self.sink_consumer = Some(consumer);
        Ok(())
    }

    /// Hands a message to the endpoint consumer. Without one it is dropped.
    pub fn consume(&self, context: MessageContext, payload: Payload<T>) -> (handed: Option<
        (&C, MessageContext, Payload<T>),
    >)
        ensures
            match handed {
                Some((consumer, to_context, to_payload)) => {
                    &&& self.spec_consumer() == Some(*consumer)
                    &&& to_context == context
                    &&& to_payload == payload
                },
                None => self.spec_consumer() is None,
            },
    {
        match &self.sink_consumer {
            Some(consumer) => Some((consumer, context, payload)),
            None => None,
        }
    }

    /// Writes a result that the endpoint handed back.
    pub fn consume_result(&self, context: MessageContext, payload: Payload<R>) -> (emission:
        Emission<R>)
        ensures
            emission == (Emission { stream: self.spec_result_stream(), context, payload }),
    {
        self.result_stream.collector().out_payload(context, payload)
    }
}

impl<T> Stream<T> {
    /// Puts a sink behind this stream.
    pub fn sink<E, C>(&self, config: &SinkStreamConfig, environment: &mut RuntimeEnvironment) -> (
        result: RuntimeResult<SinkStream<T, E, C>>)
        requires
            self.belongs(old(environment)@),
            config.stream.id != i32::MIN,
        ensures
            attached(
                *self,
                old(environment)@,
                with_error_stream(old(environment)@, config.stream.id),
                config.stream.id,
                final(environment)@,
                result,
            ),
            result matches Ok(sink) ==> {
                &&& sink.spec_id() == config.stream.id
                &&& sink.spec_consumer() is None
                &&& sink.spec_error_stream().newest(final(environment)@)
            },
    {
        SinkStream::make(config, self, environment)
    }

    /// Puts a sink with results behind this stream.
    pub fn sink_with_result<R, E, C>(
        &self,
        config: &SinkStreamConfig,
        environment: &mut RuntimeEnvironment,
    ) -> (result: RuntimeResult<SinkStreamWithResult<T, R, E, C>>)
        requires
            self.belongs(old(environment)@),
            config.stream.id != i32::MIN,
        ensures
            attached(
                *self,
                old(environment)@,
                with_outputs(old(environment)@, config.stream),
                config.stream.id,
                final(environment)@,
                result,
            ),
            result matches Ok(sink) ==> {
                &&& sink.spec_consumer() is None
                &&& sink.spec_result_stream().belongs(final(environment)@)
                &&& sink.spec_result_stream().spec_node() == old(environment)@.nodes.len()
                &&& sink.spec_result_stream().spec_id() == config.stream.id
                &&& sink.spec_error_stream().newest(final(environment)@)
            },
    {
        SinkStreamWithResult::make(config, self, environment)
    }
}

/// An operator with two outputs gets its own stream first and its error output right after
/// it; a sink belongs to the endpoint that its configuration names, and to none where it is
/// not configured as a sink.
pub proof fn law_outputs_come_in_pairs(graph: EnvironmentView, config: StreamConfig)
    requires
        config.id != i32::MIN,
    ensures
        ({
            let grown = with_outputs(graph, config);
            let count = graph.nodes.len() as int;
            &&& grown.nodes.len() == count + 2
            &&& grown.nodes.subrange(0, count) == graph.nodes
            &&& grown.nodes[count].id == config.id
            &&& grown.nodes[count].name == config.name@
            &&& grown.nodes[count].serde == count
            &&& grown.nodes[count].link is None
            &&& grown.nodes[count + 1].id == -config.id
            &&& grown.nodes[count + 1].owner == config.id
            &&& grown.nodes[count + 1].serde == count + 1
            &&& grown.nodes[count + 1].link is None
            &&& same_but_nodes(grown, graph)
        }),
        match graph.config.spec_stream_config(config.id) {
            Some(RuntimeStreamConfig::Sink(sink)) => sink_endpoint(graph.config, config.id)
                == sink.endpoint_id,
            _ => sink_endpoint(graph.config, config.id) == 0,
        },
{
    let own = graph.with_stream(config.id, config.id, config.name@, None);
    law_streams_are_added_last(graph, config.id, config.id, config.name@, None);
    law_error_streams_mirror_their_owner(own, config.id);
    let grown = with_outputs(graph, config);
    assert(grown.nodes.drop_last() == own.nodes);
    assert(grown.nodes.subrange(0, graph.nodes.len() as int) =~= own.nodes.drop_last());
    assert(grown.nodes[graph.nodes.len() as int] == own.nodes.last());
}

} // verus!
