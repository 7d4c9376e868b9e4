//! The Kafka data sink: one producer for the endpoints of a connector.
use vstd::prelude::*;
use vstd::string::*;

use crate::operators::sink::{sink_endpoint, SinkStreamWithResult};
use crate::runtime::config::{
    KafkaDataConnectorConfig, KafkaEndpointConfig, RuntimeConfig, RuntimeDataConnectorConfig,
    RuntimeEndpointConfig,
};
use crate::runtime::environment::RuntimeEnvironment;
use crate::runtime::error::{RuntimeError, RuntimeErrorView, RuntimeResult};
use crate::runtime::lookup::{
    connector_missing_text, connector_of, endpoint_missing_text, endpoint_of, Side,
};
use crate::runtime::text::{debug_text, integer, integer_text, quoted};

verus! {

/// Where the data sink stands.
#[derive(Clone, Copy, Debug, PartialEq, Eq, Structural)]
pub enum KafkaState {
    Idle,
    Starting,
    Running,
    Stopped,
}

/// What an endpoint learns when the data sink starts.
#[derive(Clone, Copy, Debug, PartialEq, Eq, Structural)]
pub struct KafkaEndpointRuntimeState {
    pub enabled: bool,
    pub partitions: i32,
}

impl KafkaEndpointRuntimeState {
    /// Disabled, with one partition.
    pub fn new() -> (state: KafkaEndpointRuntimeState)
        ensures
            !state.enabled,
            state.partitions == 1,
    {
        KafkaEndpointRuntimeState { enabled: false, partitions: 1 }
    }
}

/// At least one.
pub open spec fn at_least_one(n: i32) -> i32 {
    if n < 1 {
        1
    } else {
        n
    }
}

pub fn clamp_to_one(n: i32) -> (clamped: i32)
    ensures
        clamped == at_least_one(n),
{
    if n < 1 {
        1
    } else {
        n
    }
}

/// An endpoint of the data sink.
#[derive(Clone, Copy, Debug, PartialEq, Eq, Structural)]
pub struct KafkaEndpointEntry {
    pub id: i32,
    pub state: KafkaEndpointRuntimeState,
}

/// A topic that is to be created.
pub struct NewTopicPlan {
    pub topic: String,
    pub partitions: i32,
    pub replication: i32,
}

/// A topic whose partitions are to be counted, for the endpoint at `endpoint`.
pub struct EnabledTopic {
    pub endpoint: usize,
    pub topic: String,
}

/// The Kafka data sink of a connector.
pub struct RdkafkaKafkaDataSink {
    pub id: i32,
    pub name: String,
    pub endpoints: Vec<KafkaEndpointEntry>,
    pub has_producer: bool,
    pub state: KafkaState,
}

/// The message for an endpoint that belongs to another connector.
pub open spec fn other_connector_text(endpoint: Seq<char>, found: i32, expected: i32) -> Seq<char> {
    "Kafka endpoint "@ + debug_text(endpoint) + " references connector "@ + integer_text(
        found as int,
    ) + ", expected "@ + integer_text(expected as int)
}

fn other_connector(endpoint: &str, found: i32, expected: i32) -> (error: RuntimeError)
    ensures
        error@ == RuntimeErrorView::InvalidConfiguration(
            other_connector_text(endpoint@, found, expected),
        ),
{
    let mut text = String::from_str("Kafka endpoint ");
    text.append(quoted(endpoint).as_str());
    text.append(" references connector ");
    text.append(integer(found).as_str());
    text.append(", expected ");
    text.append(integer(expected).as_str());
    RuntimeError::InvalidConfiguration(text)
}

/// The Kafka endpoint and connector of a sink stream, or why there are none.
pub open spec fn kafka_lookup(config: RuntimeConfig, id: i32, name: Seq<char>) -> Result<
    (KafkaEndpointConfig, KafkaDataConnectorConfig),
    Seq<char>,
> {
    match config.spec_endpoint(sink_endpoint(config, id)) {
        None => Err(endpoint_missing_text(Side::Sink, sink_endpoint(config, id), name)),
        Some(RuntimeEndpointConfig::Kafka(endpoint)) => match config.spec_data_connector(
            endpoint.id_data_connector,
        ) {
            None => Err(connector_missing_text(endpoint.id_data_connector, endpoint.name@)),
            Some(RuntimeDataConnectorConfig::Kafka(connector)) => Ok((endpoint, connector)),
            Some(_) => Err(
                "endpoint "@ + debug_text(endpoint.name@)
                    + " does not reference a Kafka data connector"@,
            ),
        },
        Some(other) => Err(
            "endpoint "@ + debug_text(other.spec_name()@) + " referenced by sink stream "@
                + debug_text(name) + " is not a Kafka endpoint"@,
        ),
    }
}

/// Finds the Kafka endpoint and connector of a sink stream.
pub fn kafka_sink_configs<T, R, E, C>(
    stream: &SinkStreamWithResult<T, R, E, C>,
    environment: &RuntimeEnvironment,
) -> (result: RuntimeResult<(KafkaEndpointConfig, KafkaDataConnectorConfig)>)
    requires
        stream.spec_result_stream().belongs(environment@),
    ensures
        ({
            let found = kafka_lookup(
                environment@.config,
                stream.spec_result_stream().spec_id(),
                environment@.nodes[stream.spec_result_stream().spec_node()].name,
            );
            match result {
                Ok(configs) => found == Ok::<_, Seq<char>>(configs),
                Err(error) => found is Err && error@ == RuntimeErrorView::InvalidConfiguration(
                    found->Err_0,
                ),
            }
        }),
{
    let config = environment.runtime_config();
    let name = stream.name(environment);
    let endpoint = match endpoint_of(
        config,
        Side::Sink,
        stream.endpoint_id(environment),
        name.as_str(),
    ) {
        Ok(endpoint) => endpoint,
        Err(error) => return Err(error),
    };
    let endpoint = match endpoint {
        RuntimeEndpointConfig::Kafka(endpoint) => endpoint,
        other => {
            let mut text = String::from_str("endpoint ");
            text.append(quoted(other.name().as_str()).as_str());
            text.append(" referenced by sink stream ");
            text.append(quoted(name.as_str()).as_str());
            text.append(" is not a Kafka endpoint");
            return Err(RuntimeError::InvalidConfiguration(text));
        },
    };
    let connector = match connector_of(config, endpoint.id_data_connector, endpoint.name.as_str()) {
        Ok(connector) => connector,
        Err(error) => return Err(error),
    };
    match connector {
        RuntimeDataConnectorConfig::Kafka(connector) => Ok((endpoint.clone(), connector.clone())),
        _ => {
            let mut text = String::from_str("endpoint ");
            text.append(quoted(endpoint.name.as_str()).as_str());
            text.append(" does not reference a Kafka data connector");
            Err(RuntimeError::InvalidConfiguration(text))
        },
    }
}

/// Whether an endpoint is among the entries.
pub open spec fn has_entry(entries: Seq<KafkaEndpointEntry>, id: i32) -> bool {
    exists|i: int| 0 <= i < entries.len() && (#[trigger] entries[i]).id == id
}

impl RdkafkaKafkaDataSink {
    /// No endpoint occurs twice.
    pub open spec fn wf(&self) -> bool {
        forall|i: int, j: int|
            0 <= i < j < self.endpoints@.len() ==> (#[trigger] self.endpoints@[i]).id != (
            #[trigger] self.endpoints@[j]).id
    }

    /// A data sink that has not started.
    pub fn new(id: i32, name: String) -> (sink: RdkafkaKafkaDataSink)
        ensures
            sink.wf(),
            sink.id == id,
            sink.name == name,
            sink.endpoints@.len() == 0,
            !sink.has_producer,
            sink.state == KafkaState::Idle,
    {
        RdkafkaKafkaDataSink {
            id,
            name,
            endpoints: Vec::new(),
            has_producer: false,
            state: KafkaState::Idle,
        }
    }

    /// The data sink for the connector of a sink stream's endpoint.
    pub fn from_stream<T, R, E, C>(
        stream: &SinkStreamWithResult<T, R, E, C>,
        environment: &RuntimeEnvironment,
    ) -> (result: RuntimeResult<RdkafkaKafkaDataSink>)
        requires
            stream.spec_result_stream().belongs(environment@),
        ensures
            match kafka_lookup(
                environment@.config,
                stream.spec_result_stream().spec_id(),
                environment@.nodes[stream.spec_result_stream().spec_node()].name,
            ) {
                Ok((endpoint, connector)) => if endpoint.id_data_connector != connector.id {
                    result is Err && result->Err_0@ == RuntimeErrorView::InvalidConfiguration(
                        other_connector_text(
                            endpoint.name@,
                            endpoint.id_data_connector,
                            connector.id,
                        ),
                    )
                } else {
                    result matches Ok(sink) && sink.wf() && sink.id == connector.id && sink.name
                        == connector.name && sink.endpoints@.len() == 0 && !sink.has_producer
                        && sink.state == KafkaState::Idle
                },
                Err(text) => result is Err && result->Err_0@
                    == RuntimeErrorView::InvalidConfiguration(text),
            },
    {
        let (endpoint, connector) = match kafka_sink_configs(stream, environment) {
            Ok(configs) => configs,
            Err(error) => return Err(error),
        };
        if endpoint.id_data_connector != connector.id {
            return Err(
                other_connector(endpoint.name.as_str(), endpoint.id_data_connector, connector.id),
            );
        }
        Ok(Self::new(connector.id, connector.name))
    }

    /// Adds an endpoint of this connector, as long as the data sink has not started.
    pub fn add_endpoint(
        &mut self,
        endpoint: &KafkaEndpointConfig,
        state: KafkaEndpointRuntimeState,
    ) -> (result: RuntimeResult<()>)
        requires
            old(self).wf(),
        ensures
            final(self).wf(),
            final(self).id == old(self).id,
            final(self).name == old(self).name,
            final(self).has_producer == old(self).has_producer,
            final(self).state == old(self).state,
            ({
                let refused = if endpoint.id_data_connector != old(self).id {
                    Some(
                        RuntimeErrorView::InvalidConfiguration(
                            other_connector_text(
                                endpoint.name@,
                                endpoint.id_data_connector,
                                old(self).id,
                            ),
                        ),
                    )
                } else if old(self).state != KafkaState::Idle {
                    Some(RuntimeErrorView::ResourceAlreadyStarted(old(self).name@))
                } else if has_entry(old(self).endpoints@, endpoint.id) {
                    Some(RuntimeErrorView::DuplicateResource(endpoint.name@))
                } else {
                    None
                };
                match result {
                    Ok(_) => {
                        &&& refused is None
                        &&& final(self).endpoints@ == old(self).endpoints@.push(
                            KafkaEndpointEntry { id: endpoint.id, state },
                        )
                    },
                    Err(error) => {
                        &&& refused == Some(error@)
                        &&& final(self).endpoints@ == old(self).endpoints@
                    },
                }
            }),
    {
        if endpoint.id_data_connector != self.id {
            return Err(
                other_connector(endpoint.name.as_str(), endpoint.id_data_connector, self.id),
            );
        }
        if self.state != KafkaState::Idle {
            return Err(RuntimeError::ResourceAlreadyStarted(self.name.clone()));
        }
        let mut i: usize = 0;
        while i < self.endpoints.len()
            invariant
                i <= self.endpoints@.len(),
                forall|j: int|
                    0 <= j < i ==> (#[trigger] self.endpoints@[j]).id != endpoint.id,
                self.endpoints@ == old(self).endpoints@,
                endpoint.id_data_connector == old(self).id,
                old(self).state == KafkaState::Idle,
                *self == *old(self),
                old(self).wf(),
            decreases self.endpoints@.len() - i,
        {
            if self.endpoints[i].id == endpoint.id {
                assert(old(self).endpoints@[i as int].id == endpoint.id);
                return Err(RuntimeError::DuplicateResource(endpoint.name.clone()));
            }
            i = i + 1;
        }
        self.endpoints.push(KafkaEndpointEntry { id: endpoint.id, state });
        Ok(())
    }
}

/// At least one is the number itself, or one where the number is less.
pub proof fn law_at_least_one(n: i32)
    ensures
        at_least_one(n) >= 1,
        n >= 1 ==> at_least_one(n) == n,
        n < 1 ==> at_least_one(n) == 1,
{
}

/// A sink gets its configuration if and only if it names a Kafka endpoint whose connector is a
/// Kafka connector, and then just those two.
pub proof fn law_sink_configuration_is_kafka(config: RuntimeConfig, id: i32, name: Seq<char>)
    ensures
        ({
            let found = kafka_lookup(config, id, name);
            let endpoint = config.spec_endpoint(sink_endpoint(config, id));
            &&& found matches Ok((own, connector)) ==> {
                &&& endpoint == Some(RuntimeEndpointConfig::Kafka(own))
                &&& config.spec_data_connector(own.id_data_connector) == Some(
                    RuntimeDataConnectorConfig::Kafka(connector),
                )
            }
            &&& endpoint matches Some(RuntimeEndpointConfig::Kafka(own)) ==> (
            config.spec_data_connector(own.id_data_connector) matches Some(
                RuntimeDataConnectorConfig::Kafka(connector),
            ) ==> found == Ok::<(KafkaEndpointConfig, KafkaDataConnectorConfig), Seq<char>>(
                (own, connector),
            ))
            &&& endpoint is None ==> found == Err::<
                (KafkaEndpointConfig, KafkaDataConnectorConfig),
                Seq<char>,
            >(endpoint_missing_text(Side::Sink, sink_endpoint(config, id), name))
        }),
{
}

} // verus!
