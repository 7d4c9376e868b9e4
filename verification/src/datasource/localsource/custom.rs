//! Sources with a producer of the service's own.
use vstd::prelude::*;

use crate::datasource::concurrency::{Admission, Concurrency};
use crate::datasource::endpoint::{attach_endpoint, SetUp, SourceEndpoint};
use crate::datasource::request::{
    begin_source_request, entered, identified, Entry, SourceEvent, SourceKind, SourcePhase,
    SourceRequest,
};
use crate::operators::input::{input_endpoint, InputStream};
use crate::runtime::common::MessageContext;
use crate::runtime::environment::RuntimeEnvironment;
use crate::runtime::error::{HandlerResult, RuntimeResult};
use crate::runtime::request::{one, Action};

verus! {

/// The endpoint of a local source.
pub struct CustomEndpointConsumer {
    pub base: SourceEndpoint,
    pub concurrency: Concurrency,
    pub timed: bool,
}

/// A local data source: an endpoint and the producer that feeds it.
pub struct CustomDataSource {
    pub endpoint_consumer: CustomEndpointConsumer,
    /// Whether producers are told to end.
    pub cancelled: bool,
    /// Whether a producer was started whose end is still to be awaited.
    pub producing: bool,
}

/// What a driver does to stop a local data source: it tells the producer to stop and
/// then awaits the end of the one that was started last, if there is one.
#[derive(Clone, Copy, Debug, PartialEq, Eq, Structural)]
pub struct StopProducer {
    pub awaited: bool,
}

/// Makes the data source of an input and attaches it, under the name of the input.
/// Results come back to it in any case.
pub fn make_custom_endpoint_consumer<T, R, E>(
    input: &mut InputStream<T, R, E, i32>,
    environment: &mut RuntimeEnvironment,
    set_up: SetUp,
) -> (result: RuntimeResult<CustomDataSource>)
    requires
        old(input).spec_stream().belongs(old(environment)@),
    ensures
        ({
            let id = old(input).spec_stream().spec_id();
            let endpoint_id = input_endpoint(old(environment)@.config, id);
            let has_result = old(input).spec_result_source() is Some;
            &&& match result {
                Ok(source) => {
                    let consumer = source.endpoint_consumer;
                    &&& set_up.failure() is None
                    &&& consumer.base.is_new(
                        id,
                        "custom"@,
                        old(environment)@.nodes[old(input).spec_stream().spec_node()].name,
                        "local"@,
                    )
                    &&& consumer.concurrency.spec_active() == 0
                    &&& !consumer.concurrency.spec_stopped()
                    &&& consumer.timed == old(environment)@.metrics
                    &&& !source.cancelled
                    &&& !source.producing
                },
                Err(error) => set_up.failure() == Some(error@),
            }
            &&& final(environment)@ == set_up.graph(
                old(environment)@,
                id,
                endpoint_id,
                has_result,
            )
            &&& final(input).spec_result_consumer() == set_up.results(
                old(input).spec_result_consumer(),
                endpoint_id,
                true,
                true,
            )
        }),
        final(input).spec_stream() == old(input).spec_stream(),
        final(input).spec_error_stream() == old(input).spec_error_stream(),
        final(input).spec_result_source() == old(input).spec_result_source(),
{
    let name = input.stream().name(environment);
    let timed: bool = environment.metrics_enabled();
    let base = match attach_endpoint(
        input,
        "custom",
        name.as_str(),
        "local",
        true,
        true,
        environment,
        set_up,
    ) {
        Ok(base) => base,
        Err(error) => return Err(error),
    };
    let endpoint_consumer = CustomEndpointConsumer { base, concurrency: Concurrency::new(), timed };
    Ok(CustomDataSource { endpoint_consumer, cancelled: false, producing: false })
}

impl CustomDataSource {
    /// Starts the producer, which runs until it returns or is told to end. One that was
    /// started before goes on by itself.
    pub fn start(&mut self) -> (result: RuntimeResult<()>)
        ensures
            result is Ok,
            final(self).producing,
            final(self).cancelled == old(self).cancelled,
            final(self).endpoint_consumer == old(self).endpoint_consumer,
    {
        self.producing = true;
        Ok(())
    }

    /// Stops the data source: the endpoint takes no more messages, and producers are
    /// told to end.
    pub fn stop(&mut self) -> (request: StopProducer)
        ensures
            request == (StopProducer { awaited: old(self).producing }),
            final(self).cancelled,
            !final(self).producing,
            final(self).endpoint_consumer.concurrency.spec_stopped(),
            final(self).endpoint_consumer.concurrency.spec_active() == old(
                self,
            ).endpoint_consumer.concurrency.spec_active(),
            final(self).endpoint_consumer.base == old(self).endpoint_consumer.base,
            final(self).endpoint_consumer.timed == old(self).endpoint_consumer.timed,
    {
        self.endpoint_consumer.stop();
        self.cancelled = true;
        let awaited: bool = self.producing;
        self.producing = false;
        StopProducer { awaited }
    }
}

impl CustomEndpointConsumer {
    /// Takes no more messages. Those that are being served go on.
    pub fn stop(&mut self)
        ensures
            final(self).concurrency.spec_stopped(),
            final(self).concurrency.spec_active() == old(self).concurrency.spec_active(),
            final(self).base == old(self).base,
            final(self).timed == old(self).timed,
    {
        self.concurrency.stop();
    }

    /// Opens a request for a message, if it is admitted under the handler's limit.
    /// One that has to wait, or finds the endpoint stopped, gets its value back.
    pub fn endpoint_request<V, X>(
        &mut self,
        limit: usize,
        context: MessageContext,
        value: V,
    ) -> (opened: Result<
        (SourceRequest<V, X>, Vec<Action<V, (), ()>>),
        (Admission, V),
    >)
        requires
            old(self).concurrency.spec_active() < usize::MAX,
        ensures
            final(self).base == old(self).base,
            final(self).timed == old(self).timed,
            final(self).concurrency.spec_stopped() == old(self).concurrency.spec_stopped(),
            match opened {
                Ok((request, actions)) => {
                    &&& !old(self).concurrency.spec_stopped()
                    &&& limit == 0 || old(self).concurrency.spec_active() < limit
                    &&& final(self).concurrency.spec_active() == old(
                        self,
                    ).concurrency.spec_active() + 1
                    &&& request == (SourceRequest::<V, X> {
                        kind: SourceKind::Local,
                        timed: old(self).timed,
                        has_result: false,
                        phase: SourcePhase::Beginning { value },
                    })
                    &&& actions@ == one(
                        Action::<V, (), ()>::BeginRequest { context },
                    )
                },
                Err((admission, returned)) => {
                    &&& returned == value
                    &&& final(self).concurrency.spec_active() == old(
                        self,
                    ).concurrency.spec_active()
                    &&& admission == (if old(self).concurrency.spec_stopped() {
                        Admission::Stopped
                    } else {
                        Admission::Wait
                    })
                    &&& old(self).concurrency.spec_stopped() || (limit > 0 && old(
                        self,
                    ).concurrency.spec_active() >= limit)
                },
            },
    {
        match self.concurrency.acquire(limit) {
            Admission::Admitted => {
                let (request, actions) = SourceRequest::open(
                    SourceKind::Local,
                    self.timed,
                    context,
                    value,
                );
                Ok((request, actions))
            },
            Admission::Wait => Err((Admission::Wait, value)),
            Admission::Stopped => Err((Admission::Stopped, value)),
        }
    }

    /// Reports to a request that `begin_request` returned. Results come back to it where
    /// the input has a result stream by now. A request whose stream id is
    /// taken fails and leaves the other as it is.
    pub fn begin<V, X, T, R, E>(
        &mut self,
        input: &InputStream<T, R, E, i32>,
        request: SourceRequest<V, X>,
        begun: HandlerResult<MessageContext, X>,
        fresh: String,
    ) -> (outcome: (
        SourceRequest<V, X>,
        Vec<Action<V, (), ()>>,
        Option<Entry>,
    ))
        requires
            old(self).base.pending.wf(),
            old(self).base.pending.spec_next() < u64::MAX,
            request.phase is Beginning,
            request.kind == SourceKind::Local,
        ensures
            final(self).base.pending.wf(),
            final(self).base.input == old(self).base.input,
            final(self).base.endpoint_name == old(self).base.endpoint_name,
            final(self).base.scope == old(self).base.scope,
            final(self).timed == old(self).timed,
            final(self).concurrency == old(self).concurrency,
            ({
                let has_result = input.spec_result_source() is Some;
                match begun {
                    Ok(context) => {
                        let named = identified(context, fresh);
                        &&& outcome.2 matches Some(entry) && {
                            &&& named.spec_stream_id() == Some(entry.stream_id)
                            &&& entered(
                                false,
                                has_result,
                                entry.stream_id@,
                                old(self).base.pending,
                                final(self).base.pending,
                                entry.token,
                            )
                            &&& outcome.0 == request.next(
                                SourceEvent::Begun {
                                    begun: Ok(named),
                                    has_result,
                                    registered: entry.token is Some,
                                },
                            ).0
                            &&& outcome.1@ == request.next(
                                SourceEvent::Begun {
                                    begun: Ok(named),
                                    has_result,
                                    registered: entry.token is Some,
                                },
                            ).1
                        }
                    },
                    Err(error) => {
                        &&& outcome.2 is None
                        &&& final(self).base.pending == old(self).base.pending
                        &&& outcome.0 == request.next(
                            SourceEvent::Begun { begun: Err(error), has_result, registered: false },
                        ).0
                        &&& outcome.1@ == request.next(
                            SourceEvent::Begun { begun: Err(error), has_result, registered: false },
                        ).1
                    },
                }
            }),
    {
        begin_source_request(
            request,
            &mut self.base.pending,
            begun,
            input.result_stream().is_some(),
            fresh,
        )
    }

    /// Ends a request that was admitted.
    pub fn release(&mut self)
        requires
            old(self).concurrency.spec_active() > 0,
        ensures
            final(self).concurrency.spec_active() == old(self).concurrency.spec_active() - 1,
            final(self).concurrency.spec_stopped() == old(self).concurrency.spec_stopped(),
            final(self).base == old(self).base,
            final(self).timed == old(self).timed,
    {
        self.concurrency.release();
    }
}

} // verus!
