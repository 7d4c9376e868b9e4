//! Delay: a function decides how long a message is held back.
use std::sync::Arc;

use vstd::prelude::*;

use crate::operators::filter::with_derived;
use crate::runtime::common::{Emission, MessageContext, Payload};
use crate::runtime::config::DelayStreamConfig;
use crate::runtime::environment::RuntimeEnvironment;
use crate::runtime::error::{RuntimeError, RuntimeResult};
use crate::runtime::stream::{attached, emitted, Collected, Collector, Stream};

verus! {

/// How long messages are held back. Services implement it.
pub trait DelayFunction<T> {
    /// How long a value is held back, in nanoseconds.
    fn duration(&self, context: MessageContext, stream: &Stream<T>, value: &T) -> u128;

    /// Takes a value that could not be held back and hands out messages for it.
    /// Unless a service says otherwise, there are none.
    fn delay_error(
        &self,
        context: MessageContext,
        stream: &Stream<T>,
        value: &T,
        error: RuntimeError,
    ) -> (collected: Vec<Collected<T>>)
        default_ensures
            collected@.len() == 0,
    {
        Vec::new()
    }
}

/// Operators may share a function without sharing anything else.
impl<T, F: DelayFunction<T>> DelayFunction<T> for Arc<F> {
    fn duration(&self, context: MessageContext, stream: &Stream<T>, value: &T) -> (duration: u128)
        ensures
            call_ensures(
                F::duration,
                (&**self, context, stream, value),
                duration,
            ),
    {
        (**self).duration(context, stream, value)
    }

    fn delay_error(
        &self,
        context: MessageContext,
        stream: &Stream<T>,
        value: &T,
        error: RuntimeError,
    ) -> (collected: Vec<Collected<T>>)
        ensures
            call_ensures(
                F::delay_error,
                (&**self, context, stream, value, error),
                collected,
            ),
    {
        (**self).delay_error(context, stream, value, error)
    }
}

/// A message that is held back.
pub struct DelayedMessage<T> {
    pub context: MessageContext,
    pub payload: Payload<T>,
}

/// What becomes of a message.
pub enum DelayStep<T> {
    /// It goes on at once.
    Emit(Emission<T>),
    /// It is to be held back for `duration` nanoseconds. `rejected` stands in for it
    /// if that is refused.
    Schedule { duration: u128, delayed: DelayedMessage<T>, rejected: DelayedMessage<T> },
}

/// A message that is not held back goes on at once, even if it was cancelled.
pub open spec fn delay_step<T>(
    output: Stream<T>,
    duration: u128,
    context: MessageContext,
    payload: Payload<T>,
) -> DelayStep<T> {
    if duration == 0 {
        DelayStep::Emit(Emission { stream: output, context, payload })
    } else {
        DelayStep::Schedule {
            duration,
            delayed: DelayedMessage { context, payload },
            rejected: DelayedMessage { context, payload },
        }
    }
}

/// The operator.
pub struct DelayStream<T, F> {
    collector: Collector<T>,
    function: F,
}

impl<T, F> DelayStream<T, F> {
    /// The stream that the operator writes to.
    pub closed spec fn spec_output(&self) -> Stream<T> {
        self.collector.spec_stream()
    }

    pub closed spec fn spec_function(&self) -> F {
        self.function
    }

    /// Puts the operator behind `source`.
    pub fn make(
        config: &DelayStreamConfig,
        source: &Stream<T>,
        function: F,
        environment: &mut RuntimeEnvironment,
    ) -> (result: RuntimeResult<(Stream<T>, DelayStream<T, F>)>)
        requires
            source.belongs(old(environment)@),
        ensures
            attached(
                *source,
                old(environment)@,
                with_derived(old(environment)@, config.stream, source.spec_node()),
                config.stream.id,
                final(environment)@,
                result,
            ),
            result matches Ok((output, operator)) ==> {
                &&& output.newest(final(environment)@)
                &&& output.spec_id() == config.stream.id
                &&& operator.spec_output() == output
                &&& operator.spec_function() == function
            },
    {
        let serde: usize = source.get_serde(environment);
        let output: Stream<T> = Stream::derived(&config.stream, environment, serde);
        let operator = Self::from_collector(output.collector(), function);
        match source.try_set_consumer(environment, output.id()) {
            Ok(_) => Ok((output, operator)),
            Err(error) => Err(error),
        }
    }

    /// The operator that writes to a given collector.
    pub fn from_collector(collector: Collector<T>, function: F) -> (operator: DelayStream<T, F>)
        ensures
            operator.spec_output() == collector.spec_stream(),
            operator.spec_function() == function,
    {
        DelayStream { collector, function }
    }

    /// What becomes of a message that the function holds back for `duration`.
    pub fn plan(&self, duration: u128, context: MessageContext, payload: Payload<T>) -> (step:
        DelayStep<T>)
        ensures
            step == delay_step(self.spec_output(), duration, context, payload),
    {
        if duration == 0 {
            return DelayStep::Emit(self.collector.out_payload(context, payload));
        }
        let (rejected, delayed) = payload.share();
        DelayStep::Schedule {
            duration,
            delayed: DelayedMessage { context: context.clone(), payload: delayed },
            rejected: DelayedMessage { context, payload: rejected },
        }
    }

    /// Asks the function about the value, once, and says what becomes of the message.
    pub fn consume(&self, context: MessageContext, payload: Payload<T>) -> (step: DelayStep<
        T,
    >) where F: DelayFunction<T>
        ensures
            exists|duration: u128|
                #[trigger] call_ensures(
                    F::duration,
                    (&self.spec_function(), context, &self.spec_output(), &payload@),
                    duration,
                ) && step == delay_step(self.spec_output(), duration, context, payload),
    {
        let duration: u128 = self.function.duration(
            context.clone(),
            self.collector.stream(),
            payload.get(),
        );
        self.plan(duration, context, payload)
    }

    /// Lets a message go on that was held back long enough, unless its context was
    /// cancelled by then.
    pub fn fire(&self, delayed: DelayedMessage<T>, cancelled: bool) -> (emission: Option<
        Emission<T>,
    >)
        ensures
            emission == (if cancelled {
                None
            } else {
                Some(
                    Emission {
                        stream: self.spec_output(),
                        context: delayed.context,
                        payload: delayed.payload,
                    },
                )
            }),
    {
        if cancelled {
            return None;
        }
        Some(self.collector.out_payload(delayed.context, delayed.payload))
    }

    /// Hands a message that could not be held back to the function and writes what it
    /// hands out.
    pub fn reject(&self, rejected: DelayedMessage<T>, error: RuntimeError) -> (emissions: Vec<
        Emission<T>,
    >) where F: DelayFunction<T>
        ensures
            exists|collected: Vec<Collected<T>>|
                #[trigger] call_ensures(
                    F::delay_error,
                    (
                        &self.spec_function(),
                        rejected.context,
                        &self.spec_output(),
                        &rejected.payload@,
                        error,
                    ),
                    collected,
                ) && emitted(emissions@, self.spec_output(), collected@),
    {
        let collected = self.function.delay_error(
            rejected.context,
            self.collector.stream(),
            rejected.payload.get(),
            error,
        );
        self.collector.out_all(collected)
    }
}

impl<T> Stream<T> {
    /// Puts the operator behind this stream.
    pub fn delay<F>(
        &self,
        config: &DelayStreamConfig,
        function: F,
        environment: &mut RuntimeEnvironment,
    ) -> (result: RuntimeResult<(Stream<T>, DelayStream<T, F>)>)
        requires
            self.belongs(old(environment)@),
        ensures
            attached(
                *self,
                old(environment)@,
                with_derived(old(environment)@, config.stream, self.spec_node()),
                config.stream.id,
                final(environment)@,
                result,
            ),
            result matches Ok((output, operator)) ==> {
                &&& output.newest(final(environment)@)
                &&& output.spec_id() == config.stream.id
                &&& operator.spec_output() == output
                &&& operator.spec_function() == function
            },
    {
        DelayStream::make(config, self, function, environment)
    }
}

/// A message that is held back is neither lost nor doubled: once it is due, it goes on
/// exactly if its context was not cancelled, with the value and the context that it
/// came with.
pub proof fn law_delayed_message_is_kept<T>(
    output: Stream<T>,
    duration: u128,
    context: MessageContext,
    payload: Payload<T>,
)
    ensures
        match delay_step(output, duration, context, payload) {
            DelayStep::Emit(emission) => {
                &&& duration == 0
                &&& emission.context == context
                &&& emission.payload == payload
            },
            DelayStep::Schedule { duration: held, delayed, rejected } => {
                &&& held == duration
                &&& held > 0
                &&& delayed.context == context
                &&& delayed.payload == payload
                &&& rejected.payload@ == payload@
            },
        },
{
}

/// A message that is not to be held back goes to the output at once, as it came; any other is
/// held back for just as long as it is to be, and is there to be handed to the function should
/// that be refused, as it came.
pub proof fn law_messages_are_held_back_as_asked<T>(
    output: Stream<T>,
    duration: u128,
    context: MessageContext,
    payload: Payload<T>,
)
    ensures
        duration == 0 ==> (delay_step(output, duration, context, payload) matches DelayStep::Emit(
            emission,
        ) && emission.stream == output && emission.context == context && emission.payload
            == payload),
        duration > 0 ==> (delay_step(output, duration, context, payload) matches DelayStep::Schedule {
            duration: held,
            delayed,
            rejected,
        } && held == duration && delayed.context == context && delayed.payload == payload
            && rejected.context == context && rejected.payload == payload),
{
}

} // verus!
