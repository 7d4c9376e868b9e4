//! The endpoints of a Kafka source.
use vstd::prelude::*;

use crate::datasource::concurrency::{Admission, Concurrency};
use crate::datasource::endpoint::{attach_endpoint, SetUp, SourceEndpoint};
use crate::datasource::kafka::message::ConsumerMessage;
use crate::datasource::request::{
    begin_source_request, entered, identified, Entry, SourceEvent, SourceKind, SourcePhase,
    SourceRequest,
};
use crate::operators::input::{input_endpoint, InputStream};
use crate::runtime::common::MessageContext;
use crate::runtime::config::{KafkaDataConnectorConfig, KafkaEndpointConfig};
use crate::runtime::environment::RuntimeEnvironment;
use crate::runtime::error::{HandlerResult, RuntimeError, RuntimeErrorView, RuntimeResult};
use crate::runtime::request::{one, Action};

verus! {

/// The endpoint of a Kafka source.
pub struct RdkafkaKafkaTypedEndpointConsumer {
    pub base: SourceEndpoint,
    pub concurrency: Concurrency,
}

/// Makes the endpoint of an input and attaches it.
pub fn make_rdkafka_kafka_endpoint_consumer<T, R, E>(
    input: &mut InputStream<T, R, E, i32>,
    endpoint_config: &KafkaEndpointConfig,
    data_connector_config: &KafkaDataConnectorConfig,
    environment: &mut RuntimeEnvironment,
    set_up: SetUp,
) -> (result: RuntimeResult<RdkafkaKafkaTypedEndpointConsumer>)
    ensures
        ({
            let id = old(input).spec_stream().spec_id();
            let endpoint_id = input_endpoint(old(environment)@.config, id);
            let has_result = old(input).spec_result_source() is Some;
            &&& match result {
                Ok(consumer) => {
                    &&& set_up.failure() is None
                    &&& consumer.base.is_new(
                        id,
                        data_connector_config.name@,
                        endpoint_config.name@,
                        "kafka"@,
                    )
                    &&& consumer.concurrency.spec_active() == 0
                    &&& !consumer.concurrency.spec_stopped()
                },
                Err(error) => set_up.failure() == Some(error@),
            }
            &&& final(environment)@ == set_up.graph(
                old(environment)@,
                id,
                endpoint_id,
                has_result,
            )
            &&& final(input).spec_result_consumer() == set_up.results(
                old(input).spec_result_consumer(),
                endpoint_id,
                has_result,
                false,
            )
        }),
        final(input).spec_stream() == old(input).spec_stream(),
        final(input).spec_error_stream() == old(input).spec_error_stream(),
        final(input).spec_result_source() == old(input).spec_result_source(),
{
    match attach_endpoint(
        input,
        data_connector_config.name.as_str(),
        endpoint_config.name.as_str(),
        "kafka",
        true,
        false,
        environment,
        set_up,
    ) {
        Ok(base) => Ok(
            RdkafkaKafkaTypedEndpointConsumer { base, concurrency: Concurrency::new() },
        ),
        Err(error) => Err(error),
    }
}

impl RdkafkaKafkaTypedEndpointConsumer {
    /// Takes messages again.
    pub fn start(&mut self)
        ensures
            !final(self).concurrency.spec_stopped(),
            final(self).concurrency.spec_active() == old(self).concurrency.spec_active(),
            final(self).base == old(self).base,
    {
        self.concurrency.start();
    }

    /// Takes no more messages. Those that are being served go on.
    pub fn stop(&mut self)
        ensures
            final(self).concurrency.spec_stopped(),
            final(self).concurrency.spec_active() == old(self).concurrency.spec_active(),
            final(self).base == old(self).base,
    {
        self.concurrency.stop();
    }

    /// Opens a request for a message, if it is admitted under the handler's limit.
    /// One that has to wait, or finds the endpoint stopped, gets its message back.
    pub fn endpoint_request<X>(
        &mut self,
        limit: usize,
        context: MessageContext,
        message: ConsumerMessage,
    ) -> (opened: Result<
        (SourceRequest<ConsumerMessage, X>, Vec<Action<ConsumerMessage, (), ()>>),
        (Admission, ConsumerMessage),
    >)
        requires
            old(self).concurrency.spec_active() < usize::MAX,
        ensures
            final(self).base == old(self).base,
            final(self).concurrency.spec_stopped() == old(self).concurrency.spec_stopped(),
            match opened {
                Ok((request, actions)) => {
                    &&& !old(self).concurrency.spec_stopped()
                    &&& limit == 0 || old(self).concurrency.spec_active() < limit
                    &&& final(self).concurrency.spec_active() == old(
                        self,
                    ).concurrency.spec_active() + 1
                    &&& request == (SourceRequest::<ConsumerMessage, X> {
                        kind: SourceKind::Kafka,
                        timed: true,
                        has_result: false,
                        phase: SourcePhase::Beginning { value: message },
                    })
                    &&& actions@ == one(
                        Action::<ConsumerMessage, (), ()>::BeginRequest { context },
                    )
                },
                Err((admission, returned)) => {
                    &&& returned == message
                    &&& final(self).concurrency.spec_active() == old(
                        self,
                    ).concurrency.spec_active()
                    &&& admission == (if old(self).concurrency.spec_stopped() {
                        Admission::Stopped
                    } else {
                        Admission::Wait
                    })
                    &&& old(self).concurrency.spec_stopped() || (limit > 0 && old(
                        self,
                    ).concurrency.spec_active() >= limit)
                },
            },
    {
        match self.concurrency.acquire(limit) {
            Admission::Admitted => {
                let (request, actions) = SourceRequest::open(
                    SourceKind::Kafka,
                    true,
                    context,
                    message,
                );
                Ok((request, actions))
            },
            Admission::Wait => Err((Admission::Wait, message)),
            Admission::Stopped => Err((Admission::Stopped, message)),
        }
    }

    /// Reports to a request that `begin_request` returned. Results come back to it where
    /// the input has a result stream by now. A request whose stream id is
    /// taken fails and leaves the other as it is.
    pub fn begin<X, T, R, E>(
        &mut self,
        input: &InputStream<T, R, E, i32>,
        request: SourceRequest<ConsumerMessage, X>,
        begun: HandlerResult<MessageContext, X>,
        fresh: String,
    ) -> (outcome: (
        SourceRequest<ConsumerMessage, X>,
        Vec<Action<ConsumerMessage, (), ()>>,
        Option<Entry>,
    ))
        requires
            old(self).base.pending.wf(),
            old(self).base.pending.spec_next() < u64::MAX,
            request.phase is Beginning,
            request.kind == SourceKind::Kafka,
        ensures
            final(self).base.pending.wf(),
            final(self).base.input == old(self).base.input,
            final(self).base.endpoint_name == old(self).base.endpoint_name,
            final(self).base.scope == old(self).base.scope,
            final(self).concurrency == old(self).concurrency,
            ({
                let has_result = input.spec_result_source() is Some;
                match begun {
                    Ok(context) => {
                        let named = identified(context, fresh);
                        &&& outcome.2 matches Some(entry) && {
                            &&& named.spec_stream_id() == Some(entry.stream_id)
                            &&& entered(
                                false,
                                has_result,
                                entry.stream_id@,
                                old(self).base.pending,
                                final(self).base.pending,
                                entry.token,
                            )
                            &&& outcome.0 == request.next(
                                SourceEvent::Begun {
                                    begun: Ok(named),
                                    has_result,
                                    registered: entry.token is Some,
                                },
                            ).0
                            &&& outcome.1@ == request.next(
                                SourceEvent::Begun {
                                    begun: Ok(named),
                                    has_result,
                                    registered: entry.token is Some,
                                },
                            ).1
                        }
                    },
                    Err(error) => {
                        &&& outcome.2 is None
                        &&& final(self).base.pending == old(self).base.pending
                        &&& outcome.0 == request.next(
                            SourceEvent::Begun { begun: Err(error), has_result, registered: false },
                        ).0
                        &&& outcome.1@ == request.next(
                            SourceEvent::Begun { begun: Err(error), has_result, registered: false },
                        ).1
                    },
                }
            }),
    {
        begin_source_request(
            request,
            &mut self.base.pending,
            begun,
            input.result_stream().is_some(),
            fresh,
        )
    }

    /// Ends a request that was admitted.
    pub fn release(&mut self)
        requires
            old(self).concurrency.spec_active() > 0,
        ensures
            final(self).concurrency.spec_active() == old(self).concurrency.spec_active() - 1,
            final(self).concurrency.spec_stopped() == old(self).concurrency.spec_stopped(),
            final(self).base == old(self).base,
    {
        self.concurrency.release();
    }
}

/// Whether the loop of an endpoint runs.
#[derive(Clone, Copy, Debug, PartialEq, Eq, Structural)]
pub struct KafkaEndpointLifecycle {
    pub running: bool,
    pub stopped: bool,
}

impl KafkaEndpointLifecycle {
    pub fn new() -> (lifecycle: KafkaEndpointLifecycle)
        ensures
            !lifecycle.running,
            !lifecycle.stopped,
    {
        KafkaEndpointLifecycle { running: false, stopped: false }
    }

    /// Starts the loop of an endpoint. An endpoint that was stopped does not start
    /// again.
    pub fn start(&mut self, name: &String) -> (result: RuntimeResult<()>)
        ensures
            match result {
                Ok(_) => {
                    &&& !old(self).stopped && !old(self).running
                    &&& final(self).running && !final(self).stopped
                },
                Err(error) => {
                    &&& *final(self) == *old(self)
                    &&& old(self).stopped || old(self).running
                    &&& error@ == (if old(self).stopped {
                        RuntimeErrorView::ResourceStopped(name@)
                    } else {
                        RuntimeErrorView::ResourceAlreadyStarted(name@)
                    })
                },
            },
    {
        if self.stopped {
            return Err(RuntimeError::ResourceStopped(name.clone()));
        }
        if self.running {
            return Err(RuntimeError::ResourceAlreadyStarted(name.clone()));
        }
        self.running = true;
        Ok(())
    }

    /// Stops the endpoint for good and says whether its loop is to be awaited.
    pub fn stop(&mut self) -> (awaited: bool)
        ensures
            awaited == old(self).running,
            final(self).stopped,
            !final(self).running,
    {
        let awaited: bool = self.running;
        self.stopped = true;
        self.running = false;
        awaited
    }

    /// What a stop came to, where `ended` tells whether the loop came to its end before
    /// the stop was cancelled.
    pub fn after_loop(&self, ended: bool) -> (result: RuntimeResult<()>)
        ensures
            match result {
                Ok(_) => ended,
                Err(error) => !ended && error@ == RuntimeErrorView::ContextCancelled,
            },
    {
        if ended {
            Ok(())
        } else {
            Err(RuntimeError::ContextCancelled)
        }
    }
}

} // verus!
