//! Key by: a function gives every value a key.
use std::marker::PhantomData;
use std::sync::Arc;

use vstd::prelude::*;

use crate::runtime::common::{Emission, MessageContext, Payload};
use crate::runtime::config::KeyByStreamConfig;
use crate::runtime::datastruct::KeyValue;
use crate::runtime::environment::RuntimeEnvironment;
use crate::runtime::error::RuntimeResult;
use crate::runtime::stream::{attached, emitted, Collected, Collector, Stream};

verus! {

/// Adds the output, whose serde pairs one for keys with one for values, without
/// connecting it.
pub fn create<K, V>(config: &KeyByStreamConfig, environment: &mut RuntimeEnvironment) -> (output: Stream<KeyValue<K, V>>)
    ensures
        final(environment)@ == old(environment)@.with_keyed_stream(
            config.stream.id,
            config.stream.id,
            config.stream.name@,
        ),
        output.newest(final(environment)@),
        output.spec_id() == config.stream.id,
{
    Stream::keyed(&config.stream, environment)
}

/// How values get their keys. Services implement it.
pub trait KeyByFunction<T, K, V> {
    /// Takes a value and hands out messages.
    fn key_by(
        &self,
        context: MessageContext,
        stream: &Stream<KeyValue<K, V>>,
        value: &T,
    ) -> Vec<Collected<KeyValue<K, V>>>;
}

/// Operators may share a function without sharing anything else.
impl<T, K, V, F: KeyByFunction<T, K, V>> KeyByFunction<T, K, V> for Arc<F> {
    fn key_by(
        &self,
        context: MessageContext,
        stream: &Stream<KeyValue<K, V>>,
        value: &T,
    ) -> (collected: Vec<Collected<KeyValue<K, V>>>)
        ensures
            call_ensures(
                F::key_by,
                (&**self, context, stream, value),
                collected,
            ),
    {
        (**self).key_by(context, stream, value)
    }
}

/// The operator.
pub struct KeyByStream<T, K, V, F> {
    collector: Collector<KeyValue<K, V>>,
    function: F,
    takes: PhantomData<T>,
}

impl<T, K, V, F> KeyByStream<T, K, V, F> {
    /// The stream that the operator writes to.
    pub closed spec fn spec_output(&self) -> Stream<KeyValue<K, V>> {
        self.collector.spec_stream()
    }

    pub closed spec fn spec_function(&self) -> F {
        self.function
    }

    /// Puts the operator behind `source`.
    pub fn make(
        config: &KeyByStreamConfig,
        source: &Stream<T>,
        function: F,
        environment: &mut RuntimeEnvironment,
    ) -> (result: RuntimeResult<(Stream<KeyValue<K, V>>, KeyByStream<T, K, V, F>)>)
        requires
            source.belongs(old(environment)@),
        ensures
            attached(
                *source,
                old(environment)@,
                old(environment)@.with_keyed_stream(
                    config.stream.id,
                    config.stream.id,
                    config.stream.name@,
                ),
                config.stream.id,
                final(environment)@,
                result,
            ),
            result matches Ok((output, operator)) ==> {
                &&& output.newest(final(environment)@)
                &&& output.spec_id() == config.stream.id
                &&& operator.spec_output() == output
                &&& operator.spec_function() == function
            },
    {
        let output: Stream<KeyValue<K, V>> = create(config, environment);
        let operator = Self::from_collector(output.collector(), function);
        match source.try_set_consumer(environment, output.id()) {
            Ok(_) => Ok((output, operator)),
            Err(error) => Err(error),
        }
    }

    /// The operator that writes to a given collector.
    pub fn from_collector(collector: Collector<KeyValue<K, V>>, function: F) -> (operator: KeyByStream<T, K, V, F>)
        ensures
            operator.spec_output() == collector.spec_stream(),
            operator.spec_function() == function,
    {
        KeyByStream { collector, function, takes: PhantomData }
    }

    /// Writes what the function handed out, as it is and in its order.
    pub fn emit(&self, collected: Vec<Collected<KeyValue<K, V>>>) -> (emissions: Vec<Emission<KeyValue<K, V>>>)
        ensures
            emitted(emissions@, self.spec_output(), collected@),
    {
        self.collector.out_all(collected)
    }

    /// Hands the value to the function, once, and writes what it hands out.
    pub fn consume(&self, context: MessageContext, payload: Payload<T>) -> (emissions: Vec<
        Emission<KeyValue<K, V>>,
    >) where F: KeyByFunction<T, K, V>
        ensures
            exists|collected: Vec<Collected<KeyValue<K, V>>>|
                #[trigger] call_ensures(
                    F::key_by,
                    (&self.spec_function(), context, &self.spec_output(), &payload@),
                    collected,
                ) && emitted(emissions@, self.spec_output(), collected@),
    {
        let collected = self.function.key_by(context, self.collector.stream(), payload.get());
        self.emit(collected)
    }
}

impl<T> Stream<T> {
    /// Puts the operator behind this stream.
    pub fn key_by<K, V, F>(
        &self,
        config: &KeyByStreamConfig,
        function: F,
        environment: &mut RuntimeEnvironment,
    ) -> (result: RuntimeResult<(Stream<KeyValue<K, V>>, KeyByStream<T, K, V, F>)>)
        requires
            self.belongs(old(environment)@),
        ensures
            attached(
                *self,
                old(environment)@,
                old(environment)@.with_keyed_stream(
                    config.stream.id,
                    config.stream.id,
                    config.stream.name@,
                ),
                config.stream.id,
                final(environment)@,
                result,
            ),
            result matches Ok((output, operator)) ==> {
                &&& output.newest(final(environment)@)
                &&& output.spec_id() == config.stream.id
                &&& operator.spec_output() == output
                &&& operator.spec_function() == function
            },
    {
        KeyByStream::make(config, self, function, environment)
    }
}

} // verus!
