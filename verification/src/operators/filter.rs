//! Filter: a function decides which messages go on.
use std::sync::Arc;

use vstd::prelude::*;

use crate::runtime::common::{Emission, MessageContext, Payload};
use crate::runtime::config::{FilterStreamConfig, StreamConfig};
use crate::runtime::environment::{
    law_streams_are_added_last, same_but_nodes, EnvironmentView, RuntimeEnvironment, SerdeKind,
};
use crate::runtime::error::RuntimeResult;
use crate::runtime::stream::{attached, Collector, Stream};

verus! {

/// The graph once an output for `config` was added that uses the serde of the stream
/// at `source`.
pub open spec fn with_derived(
    graph: EnvironmentView,
    config: StreamConfig,
    source: int,
) -> EnvironmentView {
    graph.with_stream(config.id, config.id, config.name@, Some(graph.nodes[source].serde))
}

/// Adds the output, with the serde of the source, without connecting it.
pub fn create<T>(
    config: &FilterStreamConfig,
    source: &Stream<T>,
    environment: &mut RuntimeEnvironment,
) -> (output: Stream<T>)
    requires
        source.belongs(old(environment)@),
    ensures
        final(environment)@ == with_derived(old(environment)@, config.stream, source.spec_node()),
        output.newest(final(environment)@),
        output.spec_id() == config.stream.id,
{
    let serde: usize = source.get_serde(environment);
    Stream::derived(&config.stream, environment, serde)
}

/// Which values go on. Services implement it.
pub trait FilterFunction<T> {
    /// Whether a value goes on.
    fn filter(&self, context: MessageContext, stream: &Stream<T>, value: &T) -> bool;
}

/// Operators may share a function without sharing anything else.
impl<T, F: FilterFunction<T>> FilterFunction<T> for Arc<F> {
    fn filter(&self, context: MessageContext, stream: &Stream<T>, value: &T) -> (passed: bool)
        ensures
            call_ensures(
                F::filter,
                (&**self, context, stream, value),
                passed,
            ),
    {
        (**self).filter(context, stream, value)
    }
}

/// The operator.
pub struct FilterStream<T, F> {
    collector: Collector<T>,
    function: F,
}

impl<T, F> FilterStream<T, F> {
    /// The stream that the operator writes to.
    pub closed spec fn spec_output(&self) -> Stream<T> {
        self.collector.spec_stream()
    }

    pub closed spec fn spec_function(&self) -> F {
        self.function
    }

    /// Puts the operator behind `source`.
    pub fn make(
        config: &FilterStreamConfig,
        source: &Stream<T>,
        function: F,
        environment: &mut RuntimeEnvironment,
    ) -> (result: RuntimeResult<(Stream<T>, FilterStream<T, F>)>)
        requires
            source.belongs(old(environment)@),
        ensures
            attached(
                *source,
                old(environment)@,
                with_derived(old(environment)@, config.stream, source.spec_node()),
                config.stream.id,
                final(environment)@,
                result,
            ),
            result matches Ok((output, operator)) ==> {
                &&& output.newest(final(environment)@)
                &&& output.spec_id() == config.stream.id
                &&& operator.spec_output() == output
                &&& operator.spec_function() == function
            },
    {
        let output = create(config, source, environment);
        let operator = Self::from_collector(output.collector(), function);
        match source.try_set_consumer(environment, output.id()) {
            Ok(_) => Ok((output, operator)),
            Err(error) => Err(error),
        }
    }

    /// The operator that writes to a given collector.
    pub fn from_collector(collector: Collector<T>, function: F) -> (operator: FilterStream<T, F>)
        ensures
            operator.spec_output() == collector.spec_stream(),
            operator.spec_function() == function,
    {
        FilterStream { collector, function }
    }

    /// Writes a message as it is, if it passed.
    pub fn emit(&self, passed: bool, context: MessageContext, payload: Payload<T>) -> (emission:
        Option<Emission<T>>)
        ensures
            emission == (if passed {
                Some(Emission { stream: self.spec_output(), context, payload })
            } else {
                None
            }),
    {
        if passed {
            Some(self.collector.out_payload(context, payload))
        } else {
            None
        }
    }

    /// Asks the function about the value, once, and writes the message as it is if it
    /// passed.
    pub fn consume(&self, context: MessageContext, payload: Payload<T>) -> (emission: Option<
        Emission<T>,
    >) where F: FilterFunction<T>
        ensures
            exists|passed: bool|
                #[trigger] call_ensures(
                    F::filter,
                    (&self.spec_function(), context, &self.spec_output(), &payload@),
                    passed,
                ) && emission == (if passed {
                    Some(Emission { stream: self.spec_output(), context, payload })
                } else {
                    None
                }),
    {
        let passed: bool = self.function.filter(
            context.clone(),
            self.collector.stream(),
            payload.get(),
        );
        self.emit(passed, context, payload)
    }
}

impl<T> Stream<T> {
    /// Puts the operator behind this stream.
    pub fn filter<F>(
        &self,
        config: &FilterStreamConfig,
        function: F,
        environment: &mut RuntimeEnvironment,
    ) -> (result: RuntimeResult<(Stream<T>, FilterStream<T, F>)>)
        requires
            self.belongs(old(environment)@),
        ensures
            attached(
                *self,
                old(environment)@,
                with_derived(old(environment)@, config.stream, self.spec_node()),
                config.stream.id,
                final(environment)@,
                result,
            ),
            result matches Ok((output, operator)) ==> {
                &&& output.newest(final(environment)@)
                &&& output.spec_id() == config.stream.id
                &&& operator.spec_output() == output
                &&& operator.spec_function() == function
            },
    {
        FilterStream::make(config, self, function, environment)
    }
}

/// A stream that an operator derives from another stands under its own id and name and uses
/// the serde of the other.
pub proof fn law_derived_streams_inherit_the_serde(
    graph: EnvironmentView,
    config: StreamConfig,
    source: int,
)
    requires
        0 <= source < graph.nodes.len(),
    ensures
        ({
            let grown = with_derived(graph, config, source);
            &&& grown.nodes.drop_last() == graph.nodes
            &&& grown.nodes.last().id == config.id
            &&& grown.nodes.last().owner == config.id
            &&& grown.nodes.last().name == config.name@
            &&& grown.nodes.last().serde == graph.nodes[source].serde
            &&& grown.nodes.last().kind == SerdeKind::Inherited
            &&& grown.nodes.last().link is None
            &&& same_but_nodes(grown, graph)
        }),
{
    law_streams_are_added_last(
        graph,
        config.id,
        config.id,
        config.name@,
        Some(graph.nodes[source].serde),
    );
}

} // verus!
