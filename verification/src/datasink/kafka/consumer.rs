//! The requests of a Kafka sink.
use vstd::prelude::*;

use crate::datasink::direct::{DirectPhase, DirectRequest};
use crate::datasink::kafka::datasink::{
    at_least_one, clamp_to_one, has_entry, kafka_lookup, kafka_sink_configs, other_connector_text,
    KafkaEndpointEntry, KafkaEndpointRuntimeState, KafkaState, RdkafkaKafkaDataSink,
};
use crate::operators::sink::SinkStreamWithResult;
use crate::runtime::common::{Emission, MessageContext, Payload};
use crate::runtime::config::{KafkaDataConnectorConfig, KafkaEndpointConfig};
use crate::runtime::datasink::SinkStreamContext;
use crate::runtime::environment::RuntimeEnvironment;
use crate::runtime::error::{HandlerError, HandlerResult, RuntimeErrorView, RuntimeResult};
use crate::runtime::lookup::Side;
use crate::runtime::metrics::{endpoint_scope, is_endpoint_scope, MetricScope};
use crate::runtime::request::{one, Action};
use crate::runtime::stream::Stream;
use crate::runtime::string_map::StringMap;

verus! {

pub const IMPLEMENTATION: &'static str = "rust/rdkafka";

/// Picks the partition of a message. Services implement it; it is always asked with
/// at least one partition to choose from.
pub trait Partitioner<T, X> {
    fn partition(&self, value: &T, num_partitions: i32) -> (result: HandlerResult<i32, X>)
        requires
            num_partitions >= 1,
    ;
}

/// A record for the producer.
pub struct KafkaRecord {
    pub topic: String,
    pub key: Option<Vec<u8>>,
    pub value: Vec<u8>,
    pub partition: Option<i32>,
    pub headers: StringMap<String>,
}

/// The message that a handler fills in and sends.
pub struct SinkMessage<R> {
    pub key: Option<Vec<u8>>,
    pub value: Vec<u8>,
    pub topic: String,
    pub context: MessageContext,
    pub result_stream: Stream<R>,
}

/// What a delivery is reported as: where the record went, or nothing but the error.
pub open spec fn delivery_report<X>(result: HandlerResult<(i32, i64), X>) -> (
    i32,
    i64,
    Option<HandlerError<X>>,
) {
    match result {
        Ok((partition, offset)) => (partition, offset, None),
        Err(error) => (0, 0, Some(error)),
    }
}

fn copy_bytes(bytes: &Vec<u8>) -> (copy: Vec<u8>)
    ensures
        copy@ == bytes@,
{
    let copy = bytes.clone();
    assert(copy@ =~= bytes@);
    copy
}

impl<R> SinkMessage<R> {
    pub fn topic(&self) -> (topic: &str)
        ensures
            topic@ == self.topic@,
    {
        self.topic.as_str()
    }

    /// The record to send, with the metadata that its context is sent with as headers.
    /// A failed choice of the partition fails the sending before anything is sent.
    pub fn record<X>(
        &self,
        partition: HandlerResult<Option<i32>, X>,
        metadata: StringMap<String>,
    ) -> (result: HandlerResult<KafkaRecord, X>)
        ensures
            match partition {
                Ok(chosen) => result matches Ok(record) && {
                    &&& record.topic@ == self.topic@
                    &&& record.value@ == self.value@
                    &&& record.partition == chosen
                    &&& record.headers == metadata
                    &&& match (record.key, self.key) {
                        (Some(copy), Some(key)) => copy@ == key@,
                        (None, None) => true,
                        _ => false,
                    }
                },
                Err(error) => result == Err::<KafkaRecord, _>(error),
            },
    {
        match partition {
            Ok(partition) => {
                let key: Option<Vec<u8>> = match &self.key {
                    Some(key) => Some(copy_bytes(key)),
                    None => None,
                };
                Ok(
                    KafkaRecord {
                        topic: self.topic.clone(),
                        key,
                        value: copy_bytes(&self.value),
                        partition,
                        headers: metadata,
                    },
                )
            },
            Err(error) => Err(error),
        }
    }

    /// What the callback of `send` hears of a delivery.
    pub fn report<X>(result: HandlerResult<(i32, i64), X>) -> (report: (
        i32,
        i64,
        Option<HandlerError<X>>,
    ))
        ensures
            report == delivery_report(result),
    {
        match result {
            Ok((partition, offset)) => (partition, offset, None),
            Err(error) => (0, 0, Some(error)),
        }
    }

    /// Writes a result to the sink's result stream.
    pub fn out(&self, result: R) -> (emission: Emission<R>)
        ensures
            emission.stream == self.result_stream,
            emission.context == self.context,
            emission.payload@ == result,
    {
        self.result_stream.collector().out(self.context.clone(), result)
    }

    /// Writes a result without sending anything.
    pub fn skip(&self, result: R) -> (emission: Emission<R>)
        ensures
            emission.stream == self.result_stream,
            emission.context == self.context,
            emission.payload@ == result,
    {
        self.out(result)
    }
}

/// The consumer of a Kafka sink.
pub struct RdkafkaKafkaEndpointConsumer<R, E, P> {
    pub stream_context: SinkStreamContext<R, E>,
    pub endpoint_id: i32,
    pub endpoint_name: String,
    pub topic: String,
    pub partitioner: Option<P>,
    pub scope: MetricScope,
    pub timed: bool,
}

impl<R, E, P> RdkafkaKafkaEndpointConsumer<R, E, P> {
    /// Opens a request for a message that the handler gave the stream id
    /// `stream_id`. A disabled endpoint drops the message.
    pub fn consume<T, X>(
        &self,
        state: &KafkaEndpointRuntimeState,
        context: MessageContext,
        stream_id: String,
        value: Payload<T>,
    ) -> (opened: Option<(DirectRequest<T, X>, Vec<Action<Payload<T>, (), ()>>)>)
        ensures
            match opened {
                Some((request, actions)) => {
                    &&& state.enabled
                    &&& request == (DirectRequest::<T, X> {
                        timed: self.timed,
                        phase: DirectPhase::Beginning { value },
                    })
                    &&& actions@ == one(
                        Action::<Payload<T>, (), ()>::BeginRequest {
                            context: context.spec_with_stream_id(stream_id),
                        },
                    )
                },
                None => !state.enabled,
            },
    {
        if !state.enabled {
            return None;
        }
        Some(DirectRequest::open(self.timed, context, stream_id, value))
    }

    /// The message that `consume_message` gets: without key or value, for the
    /// endpoint's topic.
    pub fn message(&self, context: MessageContext) -> (message: SinkMessage<R>)
        ensures
            message.key is None,
            message.value@.len() == 0,
            message.topic@ == self.topic@,
            message.context == context,
            message.result_stream == self.stream_context.spec_result_stream(),
    {
        SinkMessage {
            key: None,
            value: Vec::new(),
            topic: self.topic.clone(),
            context,
            result_stream: self.stream_context.result_stream(),
        }
    }

    /// The partition for a value: what the endpoint's partitioner picks among its
    /// partitions, or none, which leaves the choice to the producer.
    pub fn partition<T, X>(&self, state: &KafkaEndpointRuntimeState, value: &T) -> (result:
        HandlerResult<Option<i32>, X>) where P: Partitioner<T, X>
        ensures
            match self.partitioner {
                Some(partitioner) => exists|picked: HandlerResult<i32, X>|
                    call_ensures(
                        P::partition,
                        (&partitioner, value, at_least_one(state.partitions)),
                        picked,
                    ) && result == (match picked {
                        Ok(partition) => Ok::<_, HandlerError<X>>(Some(partition)),
                        Err(error) => Err(error),
                    }),
                None => result == Ok::<Option<i32>, HandlerError<X>>(None),
            },
    {
        match &self.partitioner {
            Some(partitioner) => {
                let partitions: i32 = clamp_to_one(state.partitions);
                let picked = partitioner.partition(value, partitions);
                match picked {
                    Ok(partition) => Ok(Some(partition)),
                    Err(error) => Err(error),
                }
            },
            None => Ok(None),
        }
    }
}

/// A consumer for an endpoint.
pub open spec fn is_consumer<T, R, E, P>(
    consumer: RdkafkaKafkaEndpointConsumer<R, E, P>,
    stream: SinkStreamWithResult<T, R, E, RdkafkaKafkaEndpointConsumer<R, E, P>>,
    endpoint: KafkaEndpointConfig,
    connector: KafkaDataConnectorConfig,
    partitioner: Option<P>,
    metrics: bool,
) -> bool {
    &&& consumer.endpoint_id == endpoint.id
    &&& consumer.endpoint_name@ == endpoint.name@
    &&& consumer.topic@ == endpoint.topic@
    &&& consumer.partitioner == partitioner
    &&& consumer.timed == metrics
    &&& is_endpoint_scope(consumer.scope, Side::Sink, connector.name@, endpoint.name@, None)
    &&& consumer.stream_context.spec_result_stream() == stream.spec_result_stream()
    &&& consumer.stream_context.spec_error_stream() == stream.spec_error_stream()
}

fn install_consumer<T, R, E, P>(
    stream: &mut SinkStreamWithResult<T, R, E, RdkafkaKafkaEndpointConsumer<R, E, P>>,
    endpoint: KafkaEndpointConfig,
    connector: KafkaDataConnectorConfig,
    partitioner: Option<P>,
    environment: &RuntimeEnvironment,
    instruments: RuntimeResult<()>,
) -> (result: RuntimeResult<()>)
    ensures
        final(stream).spec_result_stream() == old(stream).spec_result_stream(),
        final(stream).spec_error_stream() == old(stream).spec_error_stream(),
        match instruments {
            Ok(_) => {
                &&& result is Ok
                &&& final(stream).spec_consumer() is Some
                &&& is_consumer(
                    final(stream).spec_consumer()->0,
                    *old(stream),
                    endpoint,
                    connector,
                    partitioner,
                    environment@.metrics,
                )
            },
            Err(failure) => {
                &&& result is Err
                &&& result->Err_0@ == failure@
                &&& final(stream).spec_consumer() == old(stream).spec_consumer()
            },
        },
{
    match instruments {
        Ok(_) => {},
        Err(error) => return Err(error),
    }
    let scope = endpoint_scope(
        Side::Sink,
        connector.name.as_str(),
        endpoint.name.as_str(),
        None,
    );
    let stream_context = SinkStreamContext::new(*stream.stream(), *stream.error_stream());
    let consumer = RdkafkaKafkaEndpointConsumer {
        stream_context,
        endpoint_id: endpoint.id,
        endpoint_name: endpoint.name,
        topic: endpoint.topic,
        partitioner,
        scope,
        timed: environment.metrics_enabled(),
    };
    stream.set_sink_consumer(consumer)
}

/// Makes a consumer that stands on its own, with the state that its configuration
/// gives it, and installs it on `stream` once its instruments are set up:
/// `instruments` is what that came to.
pub fn make_endpoint_consumer<T, R, E, P>(
    stream: &mut SinkStreamWithResult<T, R, E, RdkafkaKafkaEndpointConsumer<R, E, P>>,
    endpoint_config: KafkaEndpointConfig,
    data_connector_config: KafkaDataConnectorConfig,
    partitioner: Option<P>,
    environment: &RuntimeEnvironment,
    instruments: RuntimeResult<()>,
) -> (result: RuntimeResult<KafkaEndpointRuntimeState>)
    ensures
        final(stream).spec_result_stream() == old(stream).spec_result_stream(),
        final(stream).spec_error_stream() == old(stream).spec_error_stream(),
        match instruments {
            Ok(_) => {
                &&& result matches Ok(state) && state.enabled == endpoint_config.enabled
                    && state.partitions == at_least_one(endpoint_config.partitions)
                &&& final(stream).spec_consumer() is Some
                &&& is_consumer(
                    final(stream).spec_consumer()->0,
                    *old(stream),
                    endpoint_config,
                    data_connector_config,
                    partitioner,
                    environment@.metrics,
                )
            },
            Err(failure) => {
                &&& result is Err
                &&& result->Err_0@ == failure@
                &&& final(stream).spec_consumer() == old(stream).spec_consumer()
            },
        },
{
    let state = KafkaEndpointRuntimeState {
        enabled: endpoint_config.enabled,
        partitions: clamp_to_one(endpoint_config.partitions),
    };
    match install_consumer(
        stream,
        endpoint_config,
        data_connector_config,
        partitioner,
        environment,
        instruments,
    ) {
        Ok(_) => Ok(state),
        Err(error) => Err(error),
    }
}

/// Why an endpoint cannot be added to a data sink, if it cannot.
pub open spec fn add_error(
    data_sink: RdkafkaKafkaDataSink,
    endpoint: KafkaEndpointConfig,
) -> Option<RuntimeErrorView> {
    if endpoint.id_data_connector != data_sink.id {
        Some(
            RuntimeErrorView::InvalidConfiguration(
                other_connector_text(endpoint.name@, endpoint.id_data_connector, data_sink.id),
            ),
        )
    } else if data_sink.state != KafkaState::Idle {
        Some(RuntimeErrorView::ResourceAlreadyStarted(data_sink.name@))
    } else if has_entry(data_sink.endpoints@, endpoint.id) {
        Some(RuntimeErrorView::DuplicateResource(endpoint.name@))
    } else {
        None
    }
}

/// Makes the consumer for the endpoint of `stream`, adds the endpoint to the data
/// sink, and installs the consumer once its instruments are set up: `instruments` is
/// what that came to. The endpoint is disabled until the data sink starts.
pub fn make_rdkafka_kafka_endpoint_consumer<T, R, E, P>(
    stream: &mut SinkStreamWithResult<T, R, E, RdkafkaKafkaEndpointConsumer<R, E, P>>,
    data_sink: &mut RdkafkaKafkaDataSink,
    partitioner: Option<P>,
    environment: &RuntimeEnvironment,
    instruments: RuntimeResult<()>,
) -> (result: RuntimeResult<()>)
    requires
        old(data_sink).wf(),
        old(stream).spec_result_stream().belongs(environment@),
    ensures
        final(data_sink).wf(),
        final(stream).spec_result_stream() == old(stream).spec_result_stream(),
        final(stream).spec_error_stream() == old(stream).spec_error_stream(),
        match kafka_lookup(
            environment@.config,
            old(stream).spec_result_stream().spec_id(),
            environment@.nodes[old(stream).spec_result_stream().spec_node()].name,
        ) {
            Err(text) => {
                &&& result is Err
                &&& result->Err_0@ == RuntimeErrorView::InvalidConfiguration(text)
                &&& final(stream).spec_consumer() == old(stream).spec_consumer()
                &&& final(data_sink).endpoints@ == old(data_sink).endpoints@
            },
            Ok((endpoint, connector)) => match add_error(*old(data_sink), endpoint) {
                Some(error) => {
                    &&& result is Err
                    &&& result->Err_0@ == error
                    &&& final(stream).spec_consumer() == old(stream).spec_consumer()
                    &&& final(data_sink).endpoints@ == old(data_sink).endpoints@
                },
                None => {
                    &&& final(data_sink).endpoints@ == old(data_sink).endpoints@.push(
                        KafkaEndpointEntry {
                            id: endpoint.id,
                            state: KafkaEndpointRuntimeState { enabled: false, partitions: 1 },
                        },
                    )
                    &&& match instruments {
                        Ok(_) => {
                            &&& result is Ok
                            &&& final(stream).spec_consumer() is Some
                            &&& is_consumer(
                                final(stream).spec_consumer()->0,
                                *old(stream),
                                endpoint,
                                connector,
                                partitioner,
                                environment@.metrics,
                            )
                        },
                        Err(failure) => {
                            &&& result is Err
                            &&& result->Err_0@ == failure@
                            &&& final(stream).spec_consumer() == old(stream).spec_consumer()
                        },
                    }
                },
            },
        },
{
    let (endpoint, connector) = match kafka_sink_configs(stream, environment) {
        Ok(configs) => configs,
        Err(error) => return Err(error),
    };
    match data_sink.add_endpoint(&endpoint, KafkaEndpointRuntimeState::new()) {
        Ok(_) => {},
        Err(error) => return Err(error),
    }
    install_consumer(stream, endpoint, connector, partitioner, environment, instruments)
}

/// The same with a handler that picks the partitions itself.
pub fn make_rdkafka_kafka_endpoint_consumer_with_partitioner<T, R, E, P>(
    stream: &mut SinkStreamWithResult<T, R, E, RdkafkaKafkaEndpointConsumer<R, E, P>>,
    data_sink: &mut RdkafkaKafkaDataSink,
    handler: P,
    environment: &RuntimeEnvironment,
    instruments: RuntimeResult<()>,
) -> (result: RuntimeResult<()>)
    requires
        old(data_sink).wf(),
        old(stream).spec_result_stream().belongs(environment@),
    ensures
        final(data_sink).wf(),
        final(stream).spec_result_stream() == old(stream).spec_result_stream(),
        final(stream).spec_error_stream() == old(stream).spec_error_stream(),
        match kafka_lookup(
            environment@.config,
            old(stream).spec_result_stream().spec_id(),
            environment@.nodes[old(stream).spec_result_stream().spec_node()].name,
        ) {
            Err(text) => {
                &&& result is Err
                &&& result->Err_0@ == RuntimeErrorView::InvalidConfiguration(text)
                &&& final(stream).spec_consumer() == old(stream).spec_consumer()
                &&& final(data_sink).endpoints@ == old(data_sink).endpoints@
            },
            Ok((endpoint, connector)) => match add_error(*old(data_sink), endpoint) {
                Some(error) => {
                    &&& result is Err
                    &&& result->Err_0@ == error
                    &&& final(stream).spec_consumer() == old(stream).spec_consumer()
                    &&& final(data_sink).endpoints@ == old(data_sink).endpoints@
                },
                None => {
                    &&& final(data_sink).endpoints@ == old(data_sink).endpoints@.push(
                        KafkaEndpointEntry {
                            id: endpoint.id,
                            state: KafkaEndpointRuntimeState { enabled: false, partitions: 1 },
                        },
                    )
                    &&& match instruments {
                        Ok(_) => {
                            &&& result is Ok
                            &&& final(stream).spec_consumer() is Some
                            &&& is_consumer(
                                final(stream).spec_consumer()->0,
                                *old(stream),
                                endpoint,
                                connector,
                                Some(handler),
                                environment@.metrics,
                            )
                        },
                        Err(failure) => {
                            &&& result is Err
                            &&& result->Err_0@ == failure@
                            &&& final(stream).spec_consumer() == old(stream).spec_consumer()
                        },
                    }
                },
            },
        },
{
    make_rdkafka_kafka_endpoint_consumer(
        stream,
        data_sink,
        Some(handler),
        environment,
        instruments,
    )
}

/// A delivery reports where the record went, without an error, or the error alone.
pub proof fn law_delivery_reports_place_or_error<X>(result: HandlerResult<(i32, i64), X>)
    ensures
        ({
            let (partition, offset, error) = delivery_report(result);
            match result {
                Ok(place) => partition == place.0 && offset == place.1 && error is None,
                Err(failed) => error == Some(failed) && partition == 0 && offset == 0,
            }
        }),
{
}

/// An endpoint is taken by an idle data sink of its own connector that does not have it yet,
/// and by no other; which of these fails first is what a refusal says.
pub proof fn law_endpoint_is_refused_for_a_reason(
    sink: RdkafkaKafkaDataSink,
    endpoint: KafkaEndpointConfig,
)
    ensures
        ({
            let own = endpoint.id_data_connector == sink.id;
            let idle = sink.state == KafkaState::Idle;
            let known = exists|i: int|
                0 <= i < sink.endpoints@.len() && (#[trigger] sink.endpoints@[i]).id
                    == endpoint.id;
            let refusal = add_error(sink, endpoint);
            &&& refusal is None <==> own && idle && !known
            &&& !own ==> refusal is Some && refusal->0 is InvalidConfiguration
            &&& own && !idle ==> refusal == Some(
                RuntimeErrorView::ResourceAlreadyStarted(sink.name@),
            )
            &&& own && idle && known ==> refusal == Some(
                RuntimeErrorView::DuplicateResource(endpoint.name@),
            )
        }),
{
}

/// A consumer is that of its endpoint: it sends to the endpoint's topic, with the partitioner
/// that it was given, writes results and errors to the outputs of its sink, and its metrics go
/// under its connector and its name.
pub proof fn law_consumers_follow_their_endpoint<T, R, E, P>(
    consumer: RdkafkaKafkaEndpointConsumer<R, E, P>,
    stream: SinkStreamWithResult<T, R, E, RdkafkaKafkaEndpointConsumer<R, E, P>>,
    endpoint: KafkaEndpointConfig,
    connector: KafkaDataConnectorConfig,
    partitioner: Option<P>,
    metrics: bool,
)
    requires
        is_consumer(consumer, stream, endpoint, connector, partitioner, metrics),
    ensures
        consumer.endpoint_id == endpoint.id,
        consumer.endpoint_name@ == endpoint.name@,
        consumer.topic@ == endpoint.topic@,
        consumer.partitioner == partitioner,
        consumer.timed == metrics,
        consumer.stream_context.spec_result_stream() == stream.spec_result_stream(),
        consumer.stream_context.spec_error_stream() == stream.spec_error_stream(),
        consumer.scope.name@ == "datasink_endpoint"@,
        consumer.scope.labels@.len() == 2,
        consumer.scope.labels@[0].1@ == connector.name@,
        consumer.scope.labels@[1].1@ == endpoint.name@,
{
}

} // verus!
