//! Map: a function hands out messages for every value.
use std::marker::PhantomData;
use std::sync::Arc;

use vstd::prelude::*;

use crate::runtime::common::{Emission, MessageContext, Payload};
use crate::runtime::config::MapStreamConfig;
use crate::runtime::environment::RuntimeEnvironment;
use crate::runtime::error::RuntimeResult;
use crate::runtime::stream::{attached, emitted, Collected, Collector, Stream};

verus! {

/// Adds the output, with a serde of its own, without connecting it.
pub fn create<R>(config: &MapStreamConfig, environment: &mut RuntimeEnvironment) -> (output: Stream<R>)
    ensures
        final(environment)@ == old(environment)@.with_stream(
            config.stream.id,
            config.stream.id,
            config.stream.name@,
            None,
        ),
        output.newest(final(environment)@),
        output.spec_id() == config.stream.id,
{
    Stream::new(&config.stream, environment)
}

/// What a map does with a value. Services implement it.
pub trait MapFunction<T, R> {
    /// Takes a value and hands out messages.
    fn map(
        &self,
        context: MessageContext,
        stream: &Stream<R>,
        value: &T,
    ) -> Vec<Collected<R>>;
}

/// Operators may share a function without sharing anything else.
impl<T, R, F: MapFunction<T, R>> MapFunction<T, R> for Arc<F> {
    fn map(
        &self,
        context: MessageContext,
        stream: &Stream<R>,
        value: &T,
    ) -> (collected: Vec<Collected<R>>)
        ensures
            call_ensures(
                F::map,
                (&**self, context, stream, value),
                collected,
            ),
    {
        (**self).map(context, stream, value)
    }
}

/// The operator.
pub struct MapStream<T, R, F> {
    collector: Collector<R>,
    function: F,
    takes: PhantomData<T>,
}

impl<T, R, F> MapStream<T, R, F> {
    /// The stream that the operator writes to.
    pub closed spec fn spec_output(&self) -> Stream<R> {
        self.collector.spec_stream()
    }

    pub closed spec fn spec_function(&self) -> F {
        self.function
    }

    /// Puts the operator behind `source`.
    pub fn make(
        config: &MapStreamConfig,
        source: &Stream<T>,
        function: F,
        environment: &mut RuntimeEnvironment,
    ) -> (result: RuntimeResult<(Stream<R>, MapStream<T, R, F>)>)
        requires
            source.belongs(old(environment)@),
        ensures
            attached(
                *source,
                old(environment)@,
                old(environment)@.with_stream(
                    config.stream.id,
                    config.stream.id,
                    config.stream.name@,
                    None,
                ),
                config.stream.id,
                final(environment)@,
                result,
            ),
            result matches Ok((output, operator)) ==> {
                &&& output.newest(final(environment)@)
                &&& output.spec_id() == config.stream.id
                &&& operator.spec_output() == output
                &&& operator.spec_function() == function
            },
    {
        let output: Stream<R> = create(config, environment);
        let operator = Self::from_collector(output.collector(), function);
        match source.try_set_consumer(environment, output.id()) {
            Ok(_) => Ok((output, operator)),
            Err(error) => Err(error),
        }
    }

    /// The operator that writes to a given collector.
    pub fn from_collector(collector: Collector<R>, function: F) -> (operator: MapStream<T, R, F>)
        ensures
            operator.spec_output() == collector.spec_stream(),
            operator.spec_function() == function,
    {
        MapStream { collector, function, takes: PhantomData }
    }

    /// Writes what the function handed out, as it is and in its order.
    pub fn emit(&self, collected: Vec<Collected<R>>) -> (emissions: Vec<Emission<R>>)
        ensures
            emitted(emissions@, self.spec_output(), collected@),
    {
        self.collector.out_all(collected)
    }

    /// Hands the value to the function, once, and writes what it hands out.
    pub fn consume(&self, context: MessageContext, payload: Payload<T>) -> (emissions: Vec<
        Emission<R>,
    >) where F: MapFunction<T, R>
        ensures
            exists|collected: Vec<Collected<R>>|
                #[trigger] call_ensures(
                    F::map,
                    (&self.spec_function(), context, &self.spec_output(), &payload@),
                    collected,
                ) && emitted(emissions@, self.spec_output(), collected@),
    {
        let collected = self.function.map(context, self.collector.stream(), payload.get());
        self.emit(collected)
    }
}

impl<T> Stream<T> {
    /// Puts the operator behind this stream.
    pub fn map<R, F>(
        &self,
        config: &MapStreamConfig,
        function: F,
        environment: &mut RuntimeEnvironment,
    ) -> (result: RuntimeResult<(Stream<R>, MapStream<T, R, F>)>)
        requires
            self.belongs(old(environment)@),
        ensures
            attached(
                *self,
                old(environment)@,
                old(environment)@.with_stream(
                    config.stream.id,
                    config.stream.id,
                    config.stream.name@,
                    None,
                ),
                config.stream.id,
                final(environment)@,
                result,
            ),
            result matches Ok((output, operator)) ==> {
                &&& output.newest(final(environment)@)
                &&& output.spec_id() == config.stream.id
                &&& operator.spec_output() == output
                &&& operator.spec_function() == function
            },
    {
        MapStream::make(config, self, function, environment)
    }
}

} // verus!
