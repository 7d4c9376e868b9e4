//! Process: a function hands out results and errors.
use std::marker::PhantomData;
use std::sync::Arc;

use vstd::prelude::*;

use crate::operators::error::ErrorStream;
use crate::operators::sink::with_outputs;
use crate::runtime::common::{Emission, MessageContext, Payload};
use crate::runtime::config::ProcessStreamConfig;
use crate::runtime::environment::RuntimeEnvironment;
use crate::runtime::error::RuntimeResult;
use crate::runtime::stream::{attached, Collected, Collector, Stream};

verus! {

/// A message that a function hands out, as a result or as an error.
pub enum Processed<R, E> {
    Out(Collected<R>),
    Error(Collected<E>),
}

/// A message on the output or on the error output.
pub enum ProcessEmission<R, E> {
    Out(Emission<R>),
    Error(Emission<E>),
}

/// What is done with a value. Services implement it.
pub trait ProcessFunction<T, R, E> {
    /// Takes a value and hands out results and errors.
    fn process(&self, context: MessageContext, stream: &Stream<R>, value: &T) -> Vec<
        Processed<R, E>,
    >;
}

/// Operators may share a function without sharing anything else.
impl<T, R, E, F: ProcessFunction<T, R, E>> ProcessFunction<T, R, E> for Arc<F> {
    fn process(&self, context: MessageContext, stream: &Stream<R>, value: &T) -> (processed: Vec<
        Processed<R, E>,
    >)
        ensures
            call_ensures(
                F::process,
                (&**self, context, stream, value),
                processed,
            ),
    {
        (**self).process(context, stream, value)
    }
}

/// An emission is what was handed out, on the output that it was meant for.
pub open spec fn process_emitted<R, E>(
    emission: ProcessEmission<R, E>,
    output: Stream<R>,
    error: Stream<E>,
    processed: Processed<R, E>,
) -> bool {
    match (emission, processed) {
        (ProcessEmission::Out(sent), Processed::Out(out)) => {
            &&& sent.stream == output
            &&& sent.context == out.context
            &&& sent.payload@ == out.value
        },
        (ProcessEmission::Error(sent), Processed::Error(out)) => {
            &&& sent.stream == error
            &&& sent.context == out.context
            &&& sent.payload@ == out.value
        },
        _ => false,
    }
}

/// The emissions are exactly what was handed out, in its order.
pub open spec fn all_processed<R, E>(
    emissions: Seq<ProcessEmission<R, E>>,
    output: Stream<R>,
    error: Stream<E>,
    processed: Seq<Processed<R, E>>,
) -> bool {
    &&& emissions.len() == processed.len()
    &&& forall|i: int|
        0 <= i < emissions.len() ==> process_emitted(
            #[trigger] emissions[i],
            output,
            error,
            processed[i],
        )
}

/// The operator.
pub struct ProcessStream<T, R, E, F> {
    collector: Collector<R>,
    error: Collector<E>,
    function: F,
    takes: PhantomData<T>,
}

impl<T, R, E, F> ProcessStream<T, R, E, F> {
    /// The stream that results are written to.
    pub closed spec fn spec_output(&self) -> Stream<R> {
        self.collector.spec_stream()
    }

    /// The stream that errors are written to.
    pub closed spec fn spec_error(&self) -> Stream<E> {
        self.error.spec_stream()
    }

    pub closed spec fn spec_function(&self) -> F {
        self.function
    }

    /// Puts the operator behind `source`.
    pub fn make(
        config: &ProcessStreamConfig,
        source: &Stream<T>,
        function: F,
        environment: &mut RuntimeEnvironment,
    ) -> (result: RuntimeResult<(Stream<R>, Stream<E>, ProcessStream<T, R, E, F>)>)
        requires
            source.belongs(old(environment)@),
            config.stream.id != i32::MIN,
        ensures
            attached(
                *source,
                old(environment)@,
                with_outputs(old(environment)@, config.stream),
                config.stream.id,
                final(environment)@,
                result,
            ),
            result matches Ok((output, error, operator)) ==> {
                &&& output.belongs(final(environment)@)
                &&& output.spec_id() == config.stream.id
                &&& error.newest(final(environment)@)
                &&& error.spec_id() == -config.stream.id
                &&& operator.spec_output() == output
                &&& operator.spec_error() == error
                &&& operator.spec_function() == function
            },
    {
        let output: Stream<R> = Stream::new(&config.stream, environment);
        let error: Stream<E> = *ErrorStream::new(&config.stream, environment).stream();
        let operator = Self::from_collectors(output.collector(), error.collector(), function);
        match source.try_set_consumer(environment, output.id()) {
            Ok(_) => Ok((output, error, operator)),
            Err(failed) => Err(failed),
        }
    }

    /// The operator that writes to given collectors.
    pub fn from_collectors(collector: Collector<R>, error: Collector<E>, function: F) -> (operator:
        ProcessStream<T, R, E, F>)
        ensures
            operator.spec_output() == collector.spec_stream(),
            operator.spec_error() == error.spec_stream(),
            operator.spec_function() == function,
    {
        ProcessStream { collector, error, function, takes: PhantomData }
    }

    /// Writes what the function handed out, in its order, each to its output.
    pub fn emit(&self, processed: Vec<Processed<R, E>>) -> (emissions: Vec<ProcessEmission<R, E>>)
        ensures
            all_processed(emissions@, self.spec_output(), self.spec_error(), processed@),
    {
        let mut emissions: Vec<ProcessEmission<R, E>> = Vec::new();
        for item in iter: processed
            invariant
                iter.seq() == processed@,
                emissions@.len() == iter.index(),
                forall|i: int|
                    0 <= i < emissions@.len() ==> process_emitted(
                        #[trigger] emissions@[i],
                        self.spec_output(),
                        self.spec_error(),
                        processed@[i],
                    ),
        {
            match item {
                Processed::Out(out) => emissions.push(
                    ProcessEmission::Out(self.collector.out(out.context, out.value)),
                ),
                Processed::Error(out) => emissions.push(
                    ProcessEmission::Error(self.error.out(out.context, out.value)),
                ),
            }
        }
        emissions
    }

    /// Hands the value to the function, once, and writes what it hands out.
    pub fn consume(&self, context: MessageContext, payload: Payload<T>) -> (emissions: Vec<
        ProcessEmission<R, E>,
    >) where F: ProcessFunction<T, R, E>
        ensures
            exists|processed: Vec<Processed<R, E>>|
                #[trigger] call_ensures(
                    F::process,
                    (&self.spec_function(), context, &self.spec_output(), &payload@),
                    processed,
                ) && all_processed(
                    emissions@,
                    self.spec_output(),
                    self.spec_error(),
                    processed@,
                ),
    {
        let processed = self.function.process(context, self.collector.stream(), payload.get());
        self.emit(processed)
    }
}

impl<T> Stream<T> {
    /// Puts the operator behind this stream.
    pub fn process<R, E, F>(
        &self,
        config: &ProcessStreamConfig,
        function: F,
        environment: &mut RuntimeEnvironment,
    ) -> (result: RuntimeResult<(Stream<R>, Stream<E>, ProcessStream<T, R, E, F>)>)
        requires
            self.belongs(old(environment)@),
            config.stream.id != i32::MIN,
        ensures
            attached(
                *self,
                old(environment)@,
                with_outputs(old(environment)@, config.stream),
                config.stream.id,
                final(environment)@,
                result,
            ),
            result matches Ok((output, error, operator)) ==> {
                &&& output.belongs(final(environment)@)
                &&& output.spec_id() == config.stream.id
                &&& error.newest(final(environment)@)
                &&& error.spec_id() == -config.stream.id
                &&& operator.spec_output() == output
                &&& operator.spec_error() == error
                &&& operator.spec_function() == function
            },
    {
        ProcessStream::make(config, self, function, environment)
    }
}

/// What a function hands out is written in full and in its order, results to the output and
/// errors to the error output, each with its own context and value.
pub proof fn law_results_and_errors_go_their_ways<R, E>(
    emissions: Seq<ProcessEmission<R, E>>,
    output: Stream<R>,
    error: Stream<E>,
    processed: Seq<Processed<R, E>>,
    index: int,
)
    requires
        all_processed(emissions, output, error, processed),
        0 <= index < processed.len(),
    ensures
        emissions.len() == processed.len(),
        match processed[index] {
            Processed::Out(out) => emissions[index] matches ProcessEmission::Out(sent) && {
                &&& sent.stream == output
                &&& sent.context == out.context
                &&& sent.payload@ == out.value
            },
            Processed::Error(out) => emissions[index] matches ProcessEmission::Error(sent) && {
                &&& sent.stream == error
                &&& sent.context == out.context
                &&& sent.payload@ == out.value
            },
        },
{
    assert(process_emitted(emissions[index], output, error, processed[index]));
}

} // verus!
