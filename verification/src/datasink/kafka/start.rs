//! Starting and stopping the Kafka data sink.
use rdkafka::ClientConfig;
use vstd::prelude::*;
use vstd::string::*;

use crate::datasink::kafka::datasink::{
    at_least_one, clamp_to_one, EnabledTopic, KafkaEndpointEntry, KafkaEndpointRuntimeState,
    KafkaState, RdkafkaKafkaDataSink,
};
use crate::datasink::kafka::settings::{
    apply_security, credentials_missing, credentials_text, mechanism_text, new_client_config,
    no_parameters, parameters, protocol_text, secured, set_parameter,
};
use crate::runtime::config::{
    KafkaDataConnectorConfig, KafkaEndpointConfig, KafkaSecurityProtocol, RuntimeConfig,
    RuntimeDataConnectorConfig, RuntimeEndpointConfig,
};
use crate::runtime::environment::RuntimeEnvironment;
use crate::runtime::error::{RuntimeError, RuntimeErrorView, RuntimeResult};
use crate::runtime::text::{
    blank, debug_text, integer, integer_text, is_blank, natural, natural_text, quoted,
};

verus! {

/// What is left to do for a data sink that starts.
pub struct StartPlan {
    /// The settings of the producer and of the administration client.
    pub client: ClientConfig,
    /// The topics whose partitions are counted once the producer is there.
    pub enabled: Vec<EnabledTopic>,
    /// How long counting may take, in milliseconds.
    pub metadata_timeout: u64,
}

/// Where the start of a data sink has come to.
pub enum StartStep {
    /// No endpoint is enabled: the data sink runs without a producer.
    Started,
    /// Clients are to be made as planned.
    Connect(StartPlan),
}

/// What is wrong with the configuration of an endpoint, if anything is.
pub open spec fn entry_error(config: RuntimeConfig, id: i32) -> Option<Seq<char>> {
    match config.spec_endpoint(id) {
        None => Some("Kafka endpoint "@ + integer_text(id as int) + " is not configured"@),
        Some(RuntimeEndpointConfig::Kafka(_)) => None,
        Some(_) => Some("endpoint "@ + integer_text(id as int) + " is not Kafka"@),
    }
}

/// The Kafka configuration of an endpoint.
pub open spec fn kafka_endpoint(config: RuntimeConfig, id: i32) -> KafkaEndpointConfig {
    config.spec_endpoint(id)->0->Kafka_0
}

/// An endpoint as its configuration has it.
pub open spec fn refreshed(config: RuntimeConfig, entry: KafkaEndpointEntry) -> KafkaEndpointEntry {
    let endpoint = kafka_endpoint(config, entry.id);
    KafkaEndpointEntry {
        id: entry.id,
        state: KafkaEndpointRuntimeState {
            enabled: endpoint.enabled,
            partitions: at_least_one(endpoint.partitions),
        },
    }
}

/// The first endpoint from `from` on whose configuration is at fault, or the number
/// of endpoints.
pub open spec fn first_fault(
    config: RuntimeConfig,
    entries: Seq<KafkaEndpointEntry>,
    from: int,
) -> int
    decreases entries.len() - from,
{
    if from >= entries.len() {
        entries.len() as int
    } else if entry_error(config, entries[from].id) is Some {
        from
    } else {
        first_fault(config, entries, from + 1)
    }
}

/// The endpoints with the first `count` of them as their configuration has them.
pub open spec fn refreshed_up_to(
    config: RuntimeConfig,
    entries: Seq<KafkaEndpointEntry>,
    count: int,
) -> Seq<KafkaEndpointEntry> {
    Seq::new(
        entries.len(),
        |i: int|
            if i < count {
                refreshed(config, entries[i])
            } else {
                entries[i]
            },
    )
}

/// The enabled endpoints among the first `count`, with their topics.
pub open spec fn enabled_topics(
    config: RuntimeConfig,
    entries: Seq<KafkaEndpointEntry>,
    count: int,
) -> Seq<(int, Seq<char>)>
    decreases count,
{
    if count <= 0 {
        Seq::empty()
    } else {
        let before = enabled_topics(config, entries, count - 1);
        let endpoint = kafka_endpoint(config, entries[count - 1].id);
        if endpoint.enabled {
            before.push((count - 1, endpoint.topic@))
        } else {
            before
        }
    }
}

/// The planned topics as characters.
pub open spec fn topic_views(topics: Seq<EnabledTopic>) -> Seq<(int, Seq<char>)> {
    Seq::new(topics.len(), |i: int| (topics[i].endpoint as int, topics[i].topic@))
}

/// The connector of the data sink, or why it cannot be used.
pub open spec fn sink_connector(config: RuntimeConfig, id: i32, name: Seq<char>) -> Result<
    KafkaDataConnectorConfig,
    Seq<char>,
> {
    match config.spec_data_connector(id) {
        None => Err("Kafka data connector "@ + integer_text(id as int) + " is not configured"@),
        Some(RuntimeDataConnectorConfig::Kafka(connector)) => if blank(connector.brokers@) {
            Err("no brokers specified for Kafka data connector "@ + debug_text(name))
        } else {
            Ok(connector)
        },
        Some(_) => Err("data connector "@ + debug_text(name) + " is not Kafka"@),
    }
}

/// The parameters of the producer.
pub open spec fn producer_parameters(connector: KafkaDataConnectorConfig) -> Map<
    Seq<char>,
    Seq<char>,
> {
    let base = secured(
        no_parameters().insert("bootstrap.servers"@, connector.brokers@).insert(
            "partitioner"@,
            "random"@,
        ),
        connector,
    );
    let versioned = if blank(connector.version@) {
        base
    } else {
        base.insert("broker.version.fallback"@, connector.version@).insert(
            "api.version.request"@,
            "false"@,
        )
    };
    if connector.dial_timeout > 0 {
        versioned.insert("socket.timeout.ms"@, natural_text(connector.dial_timeout as nat))
    } else {
        versioned
    }
}

/// The parameters with the first `count` of some settings in place, one after the
/// other.
pub open spec fn with_settings(
    before: Map<Seq<char>, Seq<char>>,
    settings: Seq<(String, String)>,
    count: int,
) -> Map<Seq<char>, Seq<char>>
    decreases count,
{
    if count <= 0 {
        before
    } else {
        with_settings(before, settings, count - 1).insert(
            settings[count - 1].0@,
            settings[count - 1].1@,
        )
    }
}

/// How a start begins.
pub ghost enum StartView {
    /// Refused: the data sink is not idle.
    Refused(RuntimeErrorView),
    /// Given up; the data sink is in the state that is given.
    Failed(KafkaState, Seq<char>),
    /// Runs without a producer.
    Started,
    /// Goes on with the connector.
    Connect(KafkaDataConnectorConfig),
}

impl RdkafkaKafkaDataSink {
    /// How a start begins, by the state of the data sink and its configuration. The
    /// endpoints are looked at before the connector, and the connector only if an
    /// endpoint is enabled.
    pub open spec fn start_view(&self, config: RuntimeConfig) -> StartView {
        let n = self.endpoints@.len() as int;
        let fault = first_fault(config, self.endpoints@, 0);
        if self.state == KafkaState::Stopped {
            StartView::Refused(RuntimeErrorView::ResourceStopped(self.name@))
        } else if self.state != KafkaState::Idle {
            StartView::Refused(RuntimeErrorView::ResourceAlreadyStarted(self.name@))
        } else if fault < n {
            StartView::Failed(
                KafkaState::Idle,
                entry_error(config, self.endpoints@[fault].id)->0,
            )
        } else if enabled_topics(config, self.endpoints@, n).len() == 0 {
            StartView::Started
        } else {
            match sink_connector(config, self.id, self.name@) {
                Err(text) => StartView::Failed(KafkaState::Idle, text),
                Ok(connector) => if credentials_missing(connector) {
                    StartView::Failed(KafkaState::Starting, credentials_text())
                } else {
                    StartView::Connect(connector)
                },
            }
        }
    }

    fn refresh_endpoints(&mut self, config: &RuntimeConfig) -> (result: Result<
        Vec<EnabledTopic>,
        String,
    >)
        requires
            old(self).wf(),
        ensures
            final(self).wf(),
            final(self).id == old(self).id,
            final(self).name == old(self).name,
            final(self).has_producer == old(self).has_producer,
            final(self).state == old(self).state,
            ({
                let n = old(self).endpoints@.len() as int;
                let fault = first_fault(*config, old(self).endpoints@, 0);
                &&& 0 <= fault <= n
                &&& final(self).endpoints@ == refreshed_up_to(*config, old(self).endpoints@, fault)
                &&& match result {
                    Ok(topics) => {
                        &&& fault == n
                        &&& topic_views(topics@) == enabled_topics(
                            *config,
                            old(self).endpoints@,
                            n,
                        )
                        &&& forall|i: int|
                            0 <= i < topics@.len() ==> (#[trigger] topics@[i]).endpoint < n
                    },
                    Err(text) => {
                        &&& fault < n
                        &&& entry_error(*config, old(self).endpoints@[fault].id) == Some(text@)
                    },
                }
            }),
    {
        let mut topics: Vec<EnabledTopic> = Vec::new();
        let mut i: usize = 0;
        let ghost before = self.endpoints@;
        assert(refreshed_up_to(*config, before, 0) =~= before);
        assert(topic_views(topics@) =~= enabled_topics(*config, before, 0));
        while i < self.endpoints.len()
            invariant
                old(self).wf(),
                before == old(self).endpoints@,
                i <= before.len(),
                self.endpoints@.len() == before.len(),
                self.endpoints@ == refreshed_up_to(*config, before, i as int),
                self.id == old(self).id,
                self.name == old(self).name,
                self.has_producer == old(self).has_producer,
                self.state == old(self).state,
                first_fault(*config, before, 0) == first_fault(*config, before, i as int),
                topic_views(topics@) == enabled_topics(*config, before, i as int),
                forall|k: int| 0 <= k < topics@.len() ==> (#[trigger] topics@[k]).endpoint < i,
            decreases before.len() - i,
        {
            let id: i32 = self.endpoints[i].id;
            assert(id == before[i as int].id);
            match config.endpoint_by_id(id) {
                None => {
                    let mut text = String::from_str("Kafka endpoint ");
                    text.append(integer(id).as_str());
                    text.append(" is not configured");
                    proof {
                        self.lemma_refreshed_wf(*config, old(self), i as int);
                    }
                    return Err(text);
                },
                Some(RuntimeEndpointConfig::Kafka(endpoint)) => {
                    let partitions: i32 = clamp_to_one(endpoint.partitions);
                    let entry = KafkaEndpointEntry {
                        id,
                        state: KafkaEndpointRuntimeState { enabled: endpoint.enabled, partitions },
                    };
                    self.endpoints.set(i, entry);
                    proof {
                        assert(entry == refreshed(*config, before[i as int]));
                        assert(self.endpoints@ =~= refreshed_up_to(*config, before, i + 1));
                    }
                    let ghost earlier = topics@;
                    if endpoint.enabled {
                        topics.push(EnabledTopic { endpoint: i, topic: endpoint.topic.clone() });
                    }
                    assert(topic_views(topics@) =~= enabled_topics(*config, before, i + 1));
                },
                Some(_) => {
                    let mut text = String::from_str("endpoint ");
                    text.append(integer(id).as_str());
                    text.append(" is not Kafka");
                    proof {
                        self.lemma_refreshed_wf(*config, old(self), i as int);
                    }
                    return Err(text);
                },
            }
            i = i + 1;
        }
        proof {
            self.lemma_refreshed_wf(*config, old(self), i as int);
        }
        Ok(topics)
    }

    /// Begins to start: looks at the endpoints and, if one is enabled, at the
    /// connector, and plans the clients. The endpoints take over their configuration
    /// up to the first that is at fault. `statistics` is what setting up the statistics
    /// of the clients came to: the settings that they ask for.
    pub fn begin_start(
        &mut self,
        environment: &RuntimeEnvironment,
        statistics: RuntimeResult<Vec<(String, String)>>,
    ) -> (result: RuntimeResult<StartStep>)
        requires
            old(self).wf(),
        ensures
            final(self).wf(),
            final(self).id == old(self).id,
            final(self).name == old(self).name,
            final(self).has_producer == old(self).has_producer,
            ({
                let config = environment@.config;
                let n = old(self).endpoints@.len() as int;
                let fault = first_fault(config, old(self).endpoints@, 0);
                let view = old(self).start_view(config);
                &&& final(self).endpoints@ == (if view is Refused {
                    old(self).endpoints@
                } else {
                    refreshed_up_to(config, old(self).endpoints@, fault)
                })
                &&& match view {
                    StartView::Refused(error) => {
                        &&& result is Err
                        &&& result->Err_0@ == error
                        &&& final(self).state == old(self).state
                    },
                    StartView::Failed(state, text) => {
                        &&& result is Err
                        &&& result->Err_0@ == RuntimeErrorView::InvalidConfiguration(text)
                        &&& final(self).state == state
                    },
                    StartView::Started => {
                        &&& result matches Ok(StartStep::Started)
                        &&& final(self).state == KafkaState::Running
                    },
                    StartView::Connect(connector) => {
                        &&& final(self).state == KafkaState::Starting
                        &&& match statistics {
                            Ok(settings) => result matches Ok(StartStep::Connect(plan)) && {
                                &&& parameters(plan.client) == with_settings(
                                    producer_parameters(connector),
                                    settings@,
                                    settings@.len() as int,
                                )
                                &&& plan.metadata_timeout == (if connector.dial_timeout > 0 {
                                    connector.dial_timeout
                                } else {
                                    10_000
                                })
                                &&& topic_views(plan.enabled@) == enabled_topics(
                                    config,
                                    old(self).endpoints@,
                                    n,
                                )
                                &&& forall|i: int|
                                    0 <= i < plan.enabled@.len() ==> (
                                    #[trigger] plan.enabled@[i]).endpoint < n
                            },
                            Err(failure) => result is Err && result->Err_0@ == failure@,
                        }
                    },
                }
            }),
    {
        if self.state == KafkaState::Stopped {
            return Err(RuntimeError::ResourceStopped(self.name.clone()));
        }
        if self.state != KafkaState::Idle {
            return Err(RuntimeError::ResourceAlreadyStarted(self.name.clone()));
        }
        let config = environment.runtime_config();
        let enabled = match self.refresh_endpoints(config) {
            Ok(enabled) => enabled,
            Err(text) => return Err(RuntimeError::InvalidConfiguration(text)),
        };
        proof {
            assert(topic_views(enabled@).len() == enabled@.len());
        }
        if enabled.len() == 0 {
            self.state = KafkaState::Running;
            return Ok(StartStep::Started);
        }
        let connector = match self.usable_connector(config) {
            Ok(connector) => connector,
            Err(text) => return Err(RuntimeError::InvalidConfiguration(text)),
        };
        self.state = KafkaState::Starting;
        let mut client = new_client_config();
        set_parameter(&mut client, "bootstrap.servers", connector.brokers.as_str());
        set_parameter(&mut client, "partitioner", "random");
        match apply_security(&mut client, &connector) {
            Ok(_) => {},
            Err(error) => return Err(error),
        }
        if !is_blank(connector.version.as_str()) {
            set_parameter(&mut client, "broker.version.fallback", connector.version.as_str());
            set_parameter(&mut client, "api.version.request", "false");
        }
        let mut metadata_timeout: u64 = 10_000;
        if connector.dial_timeout > 0 {
            set_parameter(
                &mut client,
                "socket.timeout.ms",
                natural(connector.dial_timeout).as_str(),
            );
            metadata_timeout = connector.dial_timeout;
        }
        let settings = match statistics {
            Ok(settings) => settings,
            Err(error) => return Err(error),
        };
        let ghost own = parameters(client);
        let mut k: usize = 0;
        while k < settings.len()
            invariant
                k <= settings@.len(),
                parameters(client) == with_settings(own, settings@, k as int),
            decreases settings@.len() - k,
        {
            set_parameter(&mut client, settings[k].0.as_str(), settings[k].1.as_str());
            k = k + 1;
        }
        Ok(StartStep::Connect(StartPlan { client, enabled, metadata_timeout }))
    }

    fn usable_connector(&self, config: &RuntimeConfig) -> (result: Result<
        KafkaDataConnectorConfig,
        String,
    >)
        ensures
            match result {
                Ok(connector) => sink_connector(*config, self.id, self.name@) == Ok::<_, Seq<char>>(
                    connector,
                ),
                Err(text) => sink_connector(*config, self.id, self.name@) == Err::<
                    KafkaDataConnectorConfig,
                    _,
                >(text@),
            },
    {
        match config.data_connector_by_id(self.id) {
            None => {
                let mut text = String::from_str("Kafka data connector ");
                text.append(integer(self.id).as_str());
                text.append(" is not configured");
                Err(text)
            },
            Some(RuntimeDataConnectorConfig::Kafka(connector)) => {
                if is_blank(connector.brokers.as_str()) {
                    let mut text = String::from_str(
                        "no brokers specified for Kafka data connector ",
                    );
                    text.append(quoted(self.name.as_str()).as_str());
                    Err(text)
                } else {
                    Ok(connector.clone())
                }
            },
            Some(_) => {
                let mut text = String::from_str("data connector ");
                text.append(quoted(self.name.as_str()).as_str());
                text.append(" is not Kafka");
                Err(text)
            },
        }
    }

    proof fn lemma_refreshed_wf(&self, config: RuntimeConfig, before: &Self, count: int)
        requires
            before.wf(),
            self.endpoints@ == refreshed_up_to(config, before.endpoints@, count),
        ensures
            self.wf(),
    {
        assert forall|i: int, j: int| 0 <= i < j < self.endpoints@.len() implies (
        #[trigger] self.endpoints@[i]).id != (#[trigger] self.endpoints@[j]).id by {
            assert(before.endpoints@[i].id != before.endpoints@[j].id);
        }
    }
}

/// The endpoint that a start fails for is the first one that is not configured as a Kafka
/// endpoint.
pub proof fn law_first_fault_is_found(
    config: RuntimeConfig,
    entries: Seq<KafkaEndpointEntry>,
    from: int,
)
    requires
        0 <= from <= entries.len(),
    ensures
        ({
            let fault = first_fault(config, entries, from);
            &&& from <= fault <= entries.len()
            &&& fault < entries.len() ==> !(config.spec_endpoint(entries[fault].id) matches Some(
                RuntimeEndpointConfig::Kafka(_),
            ))
            &&& forall|i: int|
                from <= i < fault ==> (config.spec_endpoint((#[trigger] entries[i]).id) matches Some(
                    RuntimeEndpointConfig::Kafka(_),
                ))
        }),
    decreases entries.len() - from,
{
    if from < entries.len() && entry_error(config, entries[from].id) is None {
        law_first_fault_is_found(config, entries, from + 1);
    }
}

/// An endpoint that is taken over from the configuration is enabled if the configuration says
/// so and has the partitions that it says, but at least one; those from `count` on stay as
/// they were.
pub proof fn law_endpoints_follow_the_configuration(
    config: RuntimeConfig,
    entries: Seq<KafkaEndpointEntry>,
    count: int,
    index: int,
)
    requires
        0 <= index < entries.len(),
    ensures
        ({
            let after = refreshed_up_to(config, entries, count);
            &&& after.len() == entries.len()
            &&& after[index].id == entries[index].id
            &&& index >= count ==> after[index] == entries[index]
            &&& index < count ==> (config.spec_endpoint(entries[index].id) matches Some(
                RuntimeEndpointConfig::Kafka(endpoint),
            ) ==> {
                &&& after[index].state.enabled == endpoint.enabled
                &&& after[index].state.partitions >= 1
                &&& endpoint.partitions >= 1 ==> after[index].state.partitions
                    == endpoint.partitions
                &&& endpoint.partitions < 1 ==> after[index].state.partitions == 1
            })
        }),
{
}

/// The topics whose partitions are counted are those of the enabled endpoints, each with the
/// number of its endpoint.
pub proof fn law_topics_of_enabled_endpoints_are_counted(
    config: RuntimeConfig,
    entries: Seq<KafkaEndpointEntry>,
    count: int,
    index: int,
)
    requires
        0 <= index < count <= entries.len(),
        config.spec_endpoint(entries[index].id) matches Some(RuntimeEndpointConfig::Kafka(_)),
    ensures
        ({
            let endpoint = kafka_endpoint(config, entries[index].id);
            let topics = enabled_topics(config, entries, count);
            &&& topics.len() <= count
            &&& endpoint.enabled <==> topics.contains((index, endpoint.topic@))
            &&& !endpoint.enabled ==> forall|k: int|
                0 <= k < topics.len() ==> (#[trigger] topics[k]).0 != index
        }),
    decreases count,
{
    let endpoint = kafka_endpoint(config, entries[index].id);
    let before = enabled_topics(config, entries, count - 1);
    let topics = enabled_topics(config, entries, count);
    lemma_enabled_indices(config, entries, count);
    lemma_enabled_indices(config, entries, count - 1);
    if index < count - 1 {
        law_topics_of_enabled_endpoints_are_counted(config, entries, count - 1, index);
        if endpoint.enabled {
            let k = choose|k: int| 0 <= k < before.len() && before[k] == (index, endpoint.topic@);
            assert(topics[k] == before[k]);
        } else {
            assert forall|k: int| 0 <= k < topics.len() implies (#[trigger] topics[k]).0
                != index by {
                if k < before.len() {
                    assert(topics[k] == before[k]);
                }
            }
        }
    } else {
        if endpoint.enabled {
            assert(topics.last() == (index, endpoint.topic@));
        } else {
            assert(topics == before);
        }
    }
}

proof fn lemma_enabled_indices(config: RuntimeConfig, entries: Seq<KafkaEndpointEntry>, count: int)
    requires
        0 <= count <= entries.len(),
    ensures
        enabled_topics(config, entries, count).len() <= count,
        forall|k: int|
            0 <= k < enabled_topics(config, entries, count).len() ==> (#[trigger] enabled_topics(
                config,
                entries,
                count,
            )[k]).0 < count,
    decreases count,
{
    if count > 0 {
        lemma_enabled_indices(config, entries, count - 1);
        let before = enabled_topics(config, entries, count - 1);
        let topics = enabled_topics(config, entries, count);
        assert forall|k: int| 0 <= k < topics.len() implies (#[trigger] topics[k]).0 < count by {
            if k < before.len() {
                assert(topics[k] == before[k]);
            }
        }
    }
}

/// How a start begins: only an idle data sink starts; it fails at the first endpoint that is
/// not Kafka, and is idle again; without an enabled endpoint it runs at once, whatever the
/// connector is; else the connector has to be a Kafka connector with brokers and, where it
/// needs them, credentials.
pub proof fn law_start_looks_at_endpoints_first(sink: RdkafkaKafkaDataSink, config: RuntimeConfig)
    ensures
        ({
            let n = sink.endpoints@.len() as int;
            let fault = first_fault(config, sink.endpoints@, 0);
            let none = enabled_topics(config, sink.endpoints@, n).len() == 0;
            let view = sink.start_view(config);
            let idle = sink.state == KafkaState::Idle;
            &&& view is Refused <==> !idle
            &&& sink.state == KafkaState::Stopped ==> view == StartView::Refused(
                RuntimeErrorView::ResourceStopped(sink.name@),
            )
            &&& !idle && sink.state != KafkaState::Stopped ==> view == StartView::Refused(
                RuntimeErrorView::ResourceAlreadyStarted(sink.name@),
            )
            &&& idle && fault < n ==> view == StartView::Failed(
                KafkaState::Idle,
                entry_error(config, sink.endpoints@[fault].id)->0,
            )
            &&& view is Started <==> idle && fault >= n && none
            &&& view is Connect <==> idle && fault >= n && !none && (config.spec_data_connector(
                sink.id,
            ) matches Some(RuntimeDataConnectorConfig::Kafka(connector)) && !blank(
                connector.brokers@,
            ) && !credentials_missing(connector))
            &&& view matches StartView::Connect(connector) ==> config.spec_data_connector(sink.id)
                == Some(RuntimeDataConnectorConfig::Kafka(connector))
        }),
{
}

/// A setting that comes later takes the place of an earlier one; parameters that no setting
/// names stay as they were.
pub proof fn law_later_settings_win(
    before: Map<Seq<char>, Seq<char>>,
    settings: Seq<(String, String)>,
    count: int,
    name: Seq<char>,
)
    requires
        0 <= count <= settings.len(),
    ensures
        ({
            let after = with_settings(before, settings, count);
            ||| {
                &&& forall|j: int| 0 <= j < count ==> (#[trigger] settings[j]).0@ != name
                &&& after.contains_key(name) == before.contains_key(name)
                &&& before.contains_key(name) ==> after[name] == before[name]
            }
            ||| exists|i: int|
                {
                    &&& 0 <= i < count
                    &&& (#[trigger] settings[i]).0@ == name
                    &&& after.contains_key(name)
                    &&& after[name] == settings[i].1@
                    &&& forall|j: int| i < j < count ==> (#[trigger] settings[j]).0@ != name
                }
        }),
    decreases count,
{
    if count > 0 {
        law_later_settings_win(before, settings, count - 1, name);
        if settings[count - 1].0@ == name {
            assert(settings[count - 1].0@ == name);
        }
    }
}

/// A producer connects to the brokers of its connector and spreads its messages at random; it
/// speaks a fixed version of the protocol, or has a timeout, if and only if the connector has
/// one.
pub proof fn law_producers_follow_their_connector(connector: KafkaDataConnectorConfig)
    ensures
        ({
            let client = producer_parameters(connector);
            &&& client.contains_key("bootstrap.servers"@)
            &&& client["bootstrap.servers"@] == connector.brokers@
            &&& client.contains_key("partitioner"@)
            &&& client["partitioner"@] == "random"@
            &&& client.contains_key("security.protocol"@)
            &&& client["security.protocol"@] == protocol_text(connector.security_protocol)
            &&& client.contains_key("broker.version.fallback"@) <==> !blank(connector.version@)
            &&& !blank(connector.version@) ==> client["broker.version.fallback"@]
                == connector.version@ && client["api.version.request"@] == "false"@
            &&& client.contains_key("socket.timeout.ms"@) <==> connector.dial_timeout > 0
            &&& connector.dial_timeout > 0 ==> client["socket.timeout.ms"@] == natural_text(
                connector.dial_timeout as nat,
            )
            &&& client.contains_key("sasl.username"@) <==> connector.security_protocol
                != KafkaSecurityProtocol::Plaintext
            &&& connector.security_protocol != KafkaSecurityProtocol::Plaintext ==> {
                &&& client["sasl.username"@] == connector.username@
                &&& client["sasl.password"@] == connector.password@
                &&& client["sasl.mechanism"@] == mechanism_text(connector.sasl_mechanism)
            }
        }),
{
    reveal_strlit("bootstrap.servers");
    reveal_strlit("partitioner");
    reveal_strlit("security.protocol");
    reveal_strlit("broker.version.fallback");
    reveal_strlit("api.version.request");
    reveal_strlit("socket.timeout.ms");
    reveal_strlit("sasl.mechanism");
    reveal_strlit("sasl.username");
    reveal_strlit("sasl.password");
    assert("bootstrap.servers"@[0] == 'b' && "bootstrap.servers"@.len() == 17);
    assert("partitioner"@[0] == 'p');
    assert("security.protocol"@[0] == 's' && "security.protocol"@[1] == 'e');
    assert("broker.version.fallback"@.len() == 23);
    assert("api.version.request"@[0] == 'a');
    assert("socket.timeout.ms"@[0] == 's' && "socket.timeout.ms"@[1] == 'o');
    assert("sasl.mechanism"@[1] == 'a' && "sasl.mechanism"@[5] == 'm');
    assert("sasl.username"@[1] == 'a' && "sasl.username"@[5] == 'u');
    assert("sasl.password"@[1] == 'a' && "sasl.password"@[5] == 'p');
}

/// Topics as characters are the same topics, in the same order, each with its endpoint.
pub proof fn law_views_keep_the_topics(topics: Seq<EnabledTopic>, index: int)
    requires
        0 <= index < topics.len(),
    ensures
        topic_views(topics).len() == topics.len(),
        topic_views(topics)[index].0 == topics[index].endpoint,
        topic_views(topics)[index].1 == topics[index].topic@,
{
}

/// What a start that finds an enabled endpoint fails with: a connector that is not there, is no
/// Kafka connector, has no brokers, or lacks credentials that it needs, whichever is found
/// first; only the last leaves the data sink starting.
pub proof fn law_start_needs_a_connector(sink: RdkafkaKafkaDataSink, config: RuntimeConfig)
    requires
        sink.state == KafkaState::Idle,
        first_fault(config, sink.endpoints@, 0) >= sink.endpoints@.len(),
        enabled_topics(config, sink.endpoints@, sink.endpoints@.len() as int).len() > 0,
    ensures
        match config.spec_data_connector(sink.id) {
            None => sink.start_view(config) == StartView::Failed(
                KafkaState::Idle,
                "Kafka data connector "@ + integer_text(sink.id as int) + " is not configured"@,
            ),
            Some(RuntimeDataConnectorConfig::Kafka(connector)) => if blank(connector.brokers@) {
                sink.start_view(config) == StartView::Failed(
                    KafkaState::Idle,
                    "no brokers specified for Kafka data connector "@ + debug_text(sink.name@),
                )
            } else if connector.security_protocol != KafkaSecurityProtocol::Plaintext && (
            connector.username@.len() == 0 || connector.password@.len() == 0) {
                sink.start_view(config) == StartView::Failed(
                    KafkaState::Starting,
                    "Kafka SASL username and password must both be configured"@,
                )
            } else {
                sink.start_view(config) == StartView::Connect(connector)
            },
            Some(_) => sink.start_view(config) == StartView::Failed(
                KafkaState::Idle,
                "data connector "@ + debug_text(sink.name@) + " is not Kafka"@,
            ),
        },
{
}

} // verus!
