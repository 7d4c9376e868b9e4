//! Configuration of streams, endpoints and data connectors.
use vstd::prelude::*;

verus! {

/// What every stream is configured with.
pub struct StreamConfig {
    pub id: i32,
    pub name: String,
    pub id_service: i32,
}

impl Clone for StreamConfig {
    fn clone(&self) -> (copy: StreamConfig)
        ensures
            copy == *self,
    {
        StreamConfig { id: self.id, name: self.name.clone(), id_service: self.id_service }
    }
}

pub struct MapStreamConfig {
    pub stream: StreamConfig,
}

pub struct FilterStreamConfig {
    pub stream: StreamConfig,
}

pub struct FlatMapStreamConfig {
    pub stream: StreamConfig,
}

pub struct FlatMapIterableStreamConfig {
    pub stream: StreamConfig,
}

pub struct KeyByStreamConfig {
    pub stream: StreamConfig,
}

pub struct ProcessStreamConfig {
    pub stream: StreamConfig,
}

pub struct DelayStreamConfig {
    pub stream: StreamConfig,
}

pub struct MergeStreamConfig {
    pub stream: StreamConfig,
}

pub struct SplitStreamConfig {
    pub stream: StreamConfig,
}

pub struct CaseStreamConfig {
    pub stream: StreamConfig,
}

pub struct WhenStreamConfig {
    pub stream: StreamConfig,
}

pub struct CycleLinkStreamConfig {
    pub stream: StreamConfig,
}

pub struct MultiJoinStreamConfig {
    pub stream: StreamConfig,
}

pub struct SubStreamConfig {
    pub stream: StreamConfig,
}

/// Which sides of a join must hold a value before its function is called.
#[derive(Clone, Copy, Debug, PartialEq, Eq, Structural)]
pub enum JoinType {
    Undefined,
    Inner,
    Left,
    Right,
    Outer,
}

pub struct JoinStreamConfig {
    pub stream: StreamConfig,
    pub join_type: JoinType,
}

pub struct InputStreamConfig {
    pub stream: StreamConfig,
    pub endpoint_id: i32,
}

pub struct SinkStreamConfig {
    pub stream: StreamConfig,
    pub endpoint_id: i32,
}

/// A stream as the runtime configuration lists it.
pub enum RuntimeStreamConfig {
    Input(InputStreamConfig),
    Sink(SinkStreamConfig),
    Join(JoinStreamConfig),
    Plain(StreamConfig),
}

impl RuntimeStreamConfig {
    pub open spec fn spec_stream(&self) -> StreamConfig {
        match self {
            RuntimeStreamConfig::Input(config) => config.stream,
            RuntimeStreamConfig::Sink(config) => config.stream,
            RuntimeStreamConfig::Join(config) => config.stream,
            RuntimeStreamConfig::Plain(config) => *config,
        }
    }

    pub fn stream(&self) -> (config: &StreamConfig)
        ensures
            *config == self.spec_stream(),
    {
        match self {
            RuntimeStreamConfig::Input(config) => &config.stream,
            RuntimeStreamConfig::Sink(config) => &config.stream,
            RuntimeStreamConfig::Join(config) => &config.stream,
            RuntimeStreamConfig::Plain(config) => config,
        }
    }
}

/// How one stream hands messages to the next.
#[derive(Clone, Copy, Debug, PartialEq, Eq, Structural)]
pub enum CallSemantics {
    FunctionCall,
    TaskPool,
    PriorityTaskPool,
}

impl CallSemantics {
    /// Whether the caller goes on before the message is consumed.
    pub open spec fn spec_is_async(self) -> bool {
        self != CallSemantics::FunctionCall
    }

    pub fn is_async(self) -> (result: bool)
        ensures
            result == self.spec_is_async(),
    {
        match self {
            CallSemantics::FunctionCall => false,
            CallSemantics::TaskPool => true,
            CallSemantics::PriorityTaskPool => true,
        }
    }
}

/// The call semantics of one link of the graph.
pub struct LinkConfig {
    pub from: i32,
    pub to: i32,
    pub call_semantics: CallSemantics,
}

#[derive(Clone, Copy, Debug, PartialEq, Eq, Structural)]
pub enum HttpMethodType {
    Undefined,
    Get,
    Post,
    Put,
    Patch,
    Delete,
    Head,
    Options,
    Trace,
    Connect,
}

/// The name of a method on the wire.
pub open spec fn method_text(method: HttpMethodType) -> Seq<char> {
    match method {
        HttpMethodType::Get => "GET"@,
        HttpMethodType::Post => "POST"@,
        HttpMethodType::Put => "PUT"@,
        HttpMethodType::Patch => "PATCH"@,
        HttpMethodType::Delete => "DELETE"@,
        HttpMethodType::Head => "HEAD"@,
        HttpMethodType::Options => "OPTIONS"@,
        HttpMethodType::Trace => "TRACE"@,
        HttpMethodType::Connect => "CONNECT"@,
        HttpMethodType::Undefined => ""@,
    }
}

impl HttpMethodType {
    pub fn name(self) -> (text: &'static str)
        ensures
            text@ == method_text(self),
    {
        match self {
            HttpMethodType::Get => "GET",
            HttpMethodType::Post => "POST",
            HttpMethodType::Put => "PUT",
            HttpMethodType::Patch => "PATCH",
            HttpMethodType::Delete => "DELETE",
            HttpMethodType::Head => "HEAD",
            HttpMethodType::Options => "OPTIONS",
            HttpMethodType::Trace => "TRACE",
            HttpMethodType::Connect => "CONNECT",
            HttpMethodType::Undefined => "",
        }
    }
}

#[derive(Clone, Copy, Debug, PartialEq, Eq, Structural)]
pub enum KafkaSecurityProtocol {
    Plaintext,
    SaslPlaintext,
    SaslSsl,
}

#[derive(Clone, Copy, Debug, PartialEq, Eq, Structural)]
pub enum KafkaSaslMechanism {
    Plain,
    ScramSha256,
    ScramSha512,
}

/// What happens to a run that falls due while the previous one is still going.
#[derive(Clone, Copy, Debug, PartialEq, Eq, Structural)]
pub enum ScheduleOverlapPolicy {
    Allow,
    Skip,
}

/// What happens to runs that were missed.
#[derive(Clone, Copy, Debug, PartialEq, Eq, Structural)]
pub enum ScheduleMissedRunPolicy {
    Skip,
    FireOnce,
}

pub struct GrpcEndpointConfig {
    pub id: i32,
    pub name: String,
    pub id_data_connector: i32,
}

impl Clone for GrpcEndpointConfig {
    fn clone(&self) -> (copy: GrpcEndpointConfig)
        ensures
            copy == *self,
    {
        GrpcEndpointConfig {
            id: self.id,
            name: self.name.clone(),
            id_data_connector: self.id_data_connector,
        }
    }
}

pub struct HttpEndpointConfig {
    pub id: i32,
    pub name: String,
    pub id_data_connector: i32,
    pub path: String,
    pub http_method_type: HttpMethodType,
}

impl Clone for HttpEndpointConfig {
    fn clone(&self) -> (copy: HttpEndpointConfig)
        ensures
            copy == *self,
    {
        HttpEndpointConfig {
            id: self.id,
            name: self.name.clone(),
            id_data_connector: self.id_data_connector,
            path: self.path.clone(),
            http_method_type: self.http_method_type,
        }
    }
}

pub struct KafkaEndpointConfig {
    pub id: i32,
    pub name: String,
    pub id_data_connector: i32,
    pub topic: String,
    pub consumer_group: String,
    pub enabled: bool,
    pub create_topic: bool,
    pub partitions: i32,
    pub replication_factor: i32,
}

impl Clone for KafkaEndpointConfig {
    fn clone(&self) -> (copy: KafkaEndpointConfig)
        ensures
            copy == *self,
    {
        KafkaEndpointConfig {
            id: self.id,
            name: self.name.clone(),
            id_data_connector: self.id_data_connector,
            topic: self.topic.clone(),
            consumer_group: self.consumer_group.clone(),
            enabled: self.enabled,
            create_topic: self.create_topic,
            partitions: self.partitions,
            replication_factor: self.replication_factor,
        }
    }
}

pub struct CronEndpointConfig {
    pub id: i32,
    pub name: String,
    pub id_data_connector: i32,
    pub enabled: bool,
    pub schedule: String,
    pub timezone: String,
    pub overlap_policy: ScheduleOverlapPolicy,
    pub missed_run_policy: ScheduleMissedRunPolicy,
}

impl Clone for CronEndpointConfig {
    fn clone(&self) -> (copy: CronEndpointConfig)
        ensures
            copy == *self,
    {
        CronEndpointConfig {
            id: self.id,
            name: self.name.clone(),
            id_data_connector: self.id_data_connector,
            enabled: self.enabled,
            schedule: self.schedule.clone(),
            timezone: self.timezone.clone(),
            overlap_policy: self.overlap_policy,
            missed_run_policy: self.missed_run_policy,
        }
    }
}

pub struct CustomEndpointConfig {
    pub id: i32,
    pub name: String,
    pub id_data_connector: i32,
}

impl Clone for CustomEndpointConfig {
    fn clone(&self) -> (copy: CustomEndpointConfig)
        ensures
            copy == *self,
    {
        CustomEndpointConfig {
            id: self.id,
            name: self.name.clone(),
            id_data_connector: self.id_data_connector,
        }
    }
}

pub struct GrpcDataConnectorConfig {
    pub id: i32,
    pub name: String,
    pub address: String,
    pub connections_count: usize,
}

impl Clone for GrpcDataConnectorConfig {
    fn clone(&self) -> (copy: GrpcDataConnectorConfig)
        ensures
            copy == *self,
    {
        GrpcDataConnectorConfig {
            id: self.id,
            name: self.name.clone(),
            address: self.address.clone(),
            connections_count: self.connections_count,
        }
    }
}

pub struct HttpDataConnectorConfig {
    pub id: i32,
    pub name: String,
    pub address: String,
    pub host: String,
    pub port: u16,
    pub use_dedicated_listener: bool,
}

impl Clone for HttpDataConnectorConfig {
    fn clone(&self) -> (copy: HttpDataConnectorConfig)
        ensures
            copy == *self,
    {
        HttpDataConnectorConfig {
            id: self.id,
            name: self.name.clone(),
            address: self.address.clone(),
            host: self.host.clone(),
            port: self.port,
            use_dedicated_listener: self.use_dedicated_listener,
        }
    }
}

/// `dial_timeout` is in whole milliseconds; zero leaves it unset.
pub struct KafkaDataConnectorConfig {
    pub id: i32,
    pub name: String,
    pub brokers: String,
    pub version: String,
    pub dial_timeout: u64,
    pub security_protocol: KafkaSecurityProtocol,
    pub sasl_mechanism: KafkaSaslMechanism,
    pub username: String,
    pub password: String,
}

impl Clone for KafkaDataConnectorConfig {
    fn clone(&self) -> (copy: KafkaDataConnectorConfig)
        ensures
            copy == *self,
    {
        KafkaDataConnectorConfig {
            id: self.id,
            name: self.name.clone(),
            brokers: self.brokers.clone(),
            version: self.version.clone(),
            dial_timeout: self.dial_timeout,
            security_protocol: self.security_protocol,
            sasl_mechanism: self.sasl_mechanism,
            username: self.username.clone(),
            password: self.password.clone(),
        }
    }
}

pub struct CronDataConnectorConfig {
    pub id: i32,
    pub name: String,
}

impl Clone for CronDataConnectorConfig {
    fn clone(&self) -> (copy: CronDataConnectorConfig)
        ensures
            copy == *self,
    {
        CronDataConnectorConfig {
            id: self.id,
            name: self.name.clone(),
        }
    }
}

pub struct CustomDataConnectorConfig {
    pub id: i32,
    pub name: String,
}

impl Clone for CustomDataConnectorConfig {
    fn clone(&self) -> (copy: CustomDataConnectorConfig)
        ensures
            copy == *self,
    {
        CustomDataConnectorConfig {
            id: self.id,
            name: self.name.clone(),
        }
    }
}

/// An endpoint of any transport.
pub enum RuntimeEndpointConfig {
    Grpc(GrpcEndpointConfig),
    Http(HttpEndpointConfig),
    Kafka(KafkaEndpointConfig),
    Cron(CronEndpointConfig),
    Custom(CustomEndpointConfig),
}

impl RuntimeEndpointConfig {
    pub open spec fn spec_id(&self) -> i32 {
        match self {
            RuntimeEndpointConfig::Grpc(config) => config.id,
            RuntimeEndpointConfig::Http(config) => config.id,
            RuntimeEndpointConfig::Kafka(config) => config.id,
            RuntimeEndpointConfig::Cron(config) => config.id,
            RuntimeEndpointConfig::Custom(config) => config.id,
        }
    }

    pub fn id(&self) -> (value: i32)
        ensures
            value == self.spec_id(),
    {
        match self {
            RuntimeEndpointConfig::Grpc(config) => config.id,
            RuntimeEndpointConfig::Http(config) => config.id,
            RuntimeEndpointConfig::Kafka(config) => config.id,
            RuntimeEndpointConfig::Cron(config) => config.id,
            RuntimeEndpointConfig::Custom(config) => config.id,
        }
    }

    pub open spec fn spec_name(&self) -> String {
        match self {
            RuntimeEndpointConfig::Grpc(config) => config.name,
            RuntimeEndpointConfig::Http(config) => config.name,
            RuntimeEndpointConfig::Kafka(config) => config.name,
            RuntimeEndpointConfig::Cron(config) => config.name,
            RuntimeEndpointConfig::Custom(config) => config.name,
        }
    }

    pub fn name(&self) -> (value: &String)
        ensures
            *value == self.spec_name(),
    {
        match self {
            RuntimeEndpointConfig::Grpc(config) => &config.name,
            RuntimeEndpointConfig::Http(config) => &config.name,
            RuntimeEndpointConfig::Kafka(config) => &config.name,
            RuntimeEndpointConfig::Cron(config) => &config.name,
            RuntimeEndpointConfig::Custom(config) => &config.name,
        }
    }

    pub open spec fn spec_data_connector_id(&self) -> i32 {
        match self {
            RuntimeEndpointConfig::Grpc(config) => config.id_data_connector,
            RuntimeEndpointConfig::Http(config) => config.id_data_connector,
            RuntimeEndpointConfig::Kafka(config) => config.id_data_connector,
            RuntimeEndpointConfig::Cron(config) => config.id_data_connector,
            RuntimeEndpointConfig::Custom(config) => config.id_data_connector,
        }
    }

    pub fn data_connector_id(&self) -> (value: i32)
        ensures
            value == self.spec_data_connector_id(),
    {
        match self {
            RuntimeEndpointConfig::Grpc(config) => config.id_data_connector,
            RuntimeEndpointConfig::Http(config) => config.id_data_connector,
            RuntimeEndpointConfig::Kafka(config) => config.id_data_connector,
            RuntimeEndpointConfig::Cron(config) => config.id_data_connector,
            RuntimeEndpointConfig::Custom(config) => config.id_data_connector,
        }
    }
}

/// A data connector of any transport.
pub enum RuntimeDataConnectorConfig {
    Grpc(GrpcDataConnectorConfig),
    Http(HttpDataConnectorConfig),
    Kafka(KafkaDataConnectorConfig),
    Cron(CronDataConnectorConfig),
    Custom(CustomDataConnectorConfig),
}

impl RuntimeDataConnectorConfig {
    pub open spec fn spec_id(&self) -> i32 {
        match self {
            RuntimeDataConnectorConfig::Grpc(config) => config.id,
            RuntimeDataConnectorConfig::Http(config) => config.id,
            RuntimeDataConnectorConfig::Kafka(config) => config.id,
            RuntimeDataConnectorConfig::Cron(config) => config.id,
            RuntimeDataConnectorConfig::Custom(config) => config.id,
        }
    }

    pub fn id(&self) -> (value: i32)
        ensures
            value == self.spec_id(),
    {
        match self {
            RuntimeDataConnectorConfig::Grpc(config) => config.id,
            RuntimeDataConnectorConfig::Http(config) => config.id,
            RuntimeDataConnectorConfig::Kafka(config) => config.id,
            RuntimeDataConnectorConfig::Cron(config) => config.id,
            RuntimeDataConnectorConfig::Custom(config) => config.id,
        }
    }

    pub open spec fn spec_name(&self) -> String {
        match self {
            RuntimeDataConnectorConfig::Grpc(config) => config.name,
            RuntimeDataConnectorConfig::Http(config) => config.name,
            RuntimeDataConnectorConfig::Kafka(config) => config.name,
            RuntimeDataConnectorConfig::Cron(config) => config.name,
            RuntimeDataConnectorConfig::Custom(config) => config.name,
        }
    }

    pub fn name(&self) -> (value: &String)
        ensures
            *value == self.spec_name(),
    {
        match self {
            RuntimeDataConnectorConfig::Grpc(config) => &config.name,
            RuntimeDataConnectorConfig::Http(config) => &config.name,
            RuntimeDataConnectorConfig::Kafka(config) => &config.name,
            RuntimeDataConnectorConfig::Cron(config) => &config.name,
            RuntimeDataConnectorConfig::Custom(config) => &config.name,
        }
    }
}

/// The configuration that a service runs with.
pub struct RuntimeConfig {
    pub service_id: Option<i32>,
    pub default_semantics: CallSemantics,
    pub streams: Vec<RuntimeStreamConfig>,
    pub links: Vec<LinkConfig>,
    pub endpoints: Vec<RuntimeEndpointConfig>,
    pub data_connectors: Vec<RuntimeDataConnectorConfig>,
}

/// The first endpoint with the given id.
pub open spec fn find_endpoint(
    endpoints: Seq<RuntimeEndpointConfig>,
    id: i32,
) -> Option<RuntimeEndpointConfig>
    decreases endpoints.len(),
{
    if endpoints.len() == 0 {
        None
    } else if endpoints[0].spec_id() == id {
        Some(endpoints[0])
    } else {
        find_endpoint(endpoints.drop_first(), id)
    }
}

/// The first data connector with the given id.
pub open spec fn find_data_connector(
    connectors: Seq<RuntimeDataConnectorConfig>,
    id: i32,
) -> Option<RuntimeDataConnectorConfig>
    decreases connectors.len(),
{
    if connectors.len() == 0 {
        None
    } else if connectors[0].spec_id() == id {
        Some(connectors[0])
    } else {
        find_data_connector(connectors.drop_first(), id)
    }
}

/// The first stream configuration with the given id.
pub open spec fn find_stream(streams: Seq<RuntimeStreamConfig>, id: i32) -> Option<
    RuntimeStreamConfig,
>
    decreases streams.len(),
{
    if streams.len() == 0 {
        None
    } else if streams[0].spec_stream().id == id {
        Some(streams[0])
    } else {
        find_stream(streams.drop_first(), id)
    }
}

/// The semantics of the first link from `from` to `to`, else the default.
pub open spec fn find_semantics(
    links: Seq<LinkConfig>,
    default_semantics: CallSemantics,
    from: i32,
    to: i32,
) -> CallSemantics
    decreases links.len(),
{
    if links.len() == 0 {
        default_semantics
    } else if links[0].from == from && links[0].to == to {
        links[0].call_semantics
    } else {
        find_semantics(links.drop_first(), default_semantics, from, to)
    }
}

impl RuntimeConfig {
    pub open spec fn spec_endpoint(&self, id: i32) -> Option<RuntimeEndpointConfig> {
        find_endpoint(self.endpoints@, id)
    }

    pub open spec fn spec_data_connector(&self, id: i32) -> Option<RuntimeDataConnectorConfig> {
        find_data_connector(self.data_connectors@, id)
    }

    pub open spec fn spec_stream_config(&self, id: i32) -> Option<RuntimeStreamConfig> {
        find_stream(self.streams@, id)
    }

    pub open spec fn spec_call_semantics(&self, from: i32, to: i32) -> CallSemantics {
        find_semantics(self.links@, self.default_semantics, from, to)
    }

    /// The first endpoint with the given id.
    pub fn endpoint_by_id(&self, id: i32) -> (found: Option<&RuntimeEndpointConfig>)
        ensures
            match found {
                Some(config) => self.spec_endpoint(id) == Some(*config),
                None => self.spec_endpoint(id) is None,
            },
    {
        let mut i: usize = 0;
        assert(self.endpoints@.subrange(0, self.endpoints@.len() as int) =~= self.endpoints@);
        while i < self.endpoints.len()
            invariant
                i <= self.endpoints@.len(),
                find_endpoint(self.endpoints@, id) == find_endpoint(
                    self.endpoints@.subrange(i as int, self.endpoints@.len() as int),
                    id,
                ),
            decreases self.endpoints@.len() - i,
        {
            let ghost rest = self.endpoints@.subrange(i as int, self.endpoints@.len() as int);
            assert(rest[0] == self.endpoints@[i as int]);
            assert(rest.drop_first() =~= self.endpoints@.subrange(
                i + 1,
                self.endpoints@.len() as int,
            ));
            if self.endpoints[i].id() == id {
                return Some(&self.endpoints[i]);
            }
            i = i + 1;
        }
        None
    }

    /// The first data connector with the given id.
    pub fn data_connector_by_id(&self, id: i32) -> (found: Option<&RuntimeDataConnectorConfig>)
        ensures
            match found {
                Some(config) => self.spec_data_connector(id) == Some(*config),
                None => self.spec_data_connector(id) is None,
            },
    {
        let mut i: usize = 0;
        assert(self.data_connectors@.subrange(0, self.data_connectors@.len() as int) =~= self.data_connectors@);
        while i < self.data_connectors.len()
            invariant
                i <= self.data_connectors@.len(),
                find_data_connector(self.data_connectors@, id) == find_data_connector(
                    self.data_connectors@.subrange(i as int, self.data_connectors@.len() as int),
                    id,
                ),
            decreases self.data_connectors@.len() - i,
        {
            let ghost rest = self.data_connectors@.subrange(i as int, self.data_connectors@.len() as int);
            assert(rest[0] == self.data_connectors@[i as int]);
            assert(rest.drop_first() =~= self.data_connectors@.subrange(
                i + 1,
                self.data_connectors@.len() as int,
            ));
            if self.data_connectors[i].id() == id {
                return Some(&self.data_connectors[i]);
            }
            i = i + 1;
        }
        None
    }

    /// The first stream configuration with the given id.
    pub fn stream_config(&self, id: i32) -> (found: Option<&RuntimeStreamConfig>)
        ensures
            match found {
                Some(config) => self.spec_stream_config(id) == Some(*config),
                None => self.spec_stream_config(id) is None,
            },
    {
        let mut i: usize = 0;
        assert(self.streams@.subrange(0, self.streams@.len() as int) =~= self.streams@);
        while i < self.streams.len()
            invariant
                i <= self.streams@.len(),
                find_stream(self.streams@, id) == find_stream(
                    self.streams@.subrange(i as int, self.streams@.len() as int),
                    id,
                ),
            decreases self.streams@.len() - i,
        {
            let ghost rest = self.streams@.subrange(i as int, self.streams@.len() as int);
            assert(rest[0] == self.streams@[i as int]);
            assert(rest.drop_first() =~= self.streams@.subrange(
                i + 1,
                self.streams@.len() as int,
            ));
            if self.streams[i].stream().id == id {
                return Some(&self.streams[i]);
            }
            i = i + 1;
        }
        None
    }

    /// How messages pass from one stream to another.
    pub fn call_semantics(&self, from: i32, to: i32) -> (semantics: CallSemantics)
        ensures
            semantics == self.spec_call_semantics(from, to),
    {
        let mut i: usize = 0;
        assert(self.links@.subrange(0, self.links@.len() as int) =~= self.links@);
        while i < self.links.len()
            invariant
                i <= self.links@.len(),
                find_semantics(self.links@, self.default_semantics, from, to) == find_semantics(
                    self.links@.subrange(i as int, self.links@.len() as int),
                    self.default_semantics,
                    from,
                    to,
                ),
            decreases self.links@.len() - i,
        {
            let ghost rest = self.links@.subrange(i as int, self.links@.len() as int);
            assert(rest[0] == self.links@[i as int]);
            assert(rest.drop_first() =~= self.links@.subrange(i + 1, self.links@.len() as int));
            if self.links[i].from == from && self.links[i].to == to {
                return self.links[i].call_semantics;
            }
            i = i + 1;
        }
        self.default_semantics
    }
}

/// The endpoint that is found for an id is the first with that id, and one is found if there
/// is any.
pub proof fn law_first_endpoint_is_found(endpoints: Seq<RuntimeEndpointConfig>, id: i32)
    ensures
        match find_endpoint(endpoints, id) {
            Some(found) => exists|i: int|
                {
                    &&& 0 <= i < endpoints.len()
                    &&& #[trigger] endpoints[i] == found
                    &&& found.spec_id() == id
                    &&& forall|j: int| 0 <= j < i ==> (#[trigger] endpoints[j]).spec_id() != id
                },
            None => forall|j: int| 0 <= j < endpoints.len() ==> (#[trigger] endpoints[j]).spec_id() != id,
        },
    decreases endpoints.len(),
{
    if endpoints.len() > 0 && endpoints[0].spec_id() != id {
        let rest = endpoints.drop_first();
        law_first_endpoint_is_found(rest, id);
        assert forall|j: int| 0 <= j < rest.len() implies rest[j] == #[trigger] endpoints[j + 1] by {}
        match find_endpoint(rest, id) {
            Some(found) => {
                let i = choose|i: int|
                    {
                        &&& 0 <= i < rest.len()
                        &&& #[trigger] rest[i] == found
                        &&& found.spec_id() == id
                        &&& forall|j: int| 0 <= j < i ==> (#[trigger] rest[j]).spec_id() != id
                    };
                assert(endpoints[i + 1] == found);
                assert forall|j: int| 0 <= j < i + 1 implies (#[trigger] endpoints[j]).spec_id() != id by {
                    if j > 0 {
                        assert(rest[j - 1] == endpoints[j]);
                    }
                }
            },
            None => {
                assert forall|j: int| 0 <= j < endpoints.len() implies (#[trigger] endpoints[j]).spec_id() != id by {
                    if j > 0 {
                        assert(rest[j - 1] == endpoints[j]);
                    }
                }
            },
        }
    }
}

/// The connector that is found for an id is the first with that id, and one is found if
/// there is any.
pub proof fn law_first_connector_is_found(connectors: Seq<RuntimeDataConnectorConfig>, id: i32)
    ensures
        match find_data_connector(connectors, id) {
            Some(found) => exists|i: int|
                {
                    &&& 0 <= i < connectors.len()
                    &&& #[trigger] connectors[i] == found
                    &&& found.spec_id() == id
                    &&& forall|j: int| 0 <= j < i ==> (#[trigger] connectors[j]).spec_id() != id
                },
            None => forall|j: int| 0 <= j < connectors.len() ==> (#[trigger] connectors[j]).spec_id() != id,
        },
    decreases connectors.len(),
{
    if connectors.len() > 0 && connectors[0].spec_id() != id {
        let rest = connectors.drop_first();
        law_first_connector_is_found(rest, id);
        assert forall|j: int| 0 <= j < rest.len() implies rest[j] == #[trigger] connectors[j + 1] by {}
        match find_data_connector(rest, id) {
            Some(found) => {
                let i = choose|i: int|
                    {
                        &&& 0 <= i < rest.len()
                        &&& #[trigger] rest[i] == found
                        &&& found.spec_id() == id
                        &&& forall|j: int| 0 <= j < i ==> (#[trigger] rest[j]).spec_id() != id
                    };
                assert(connectors[i + 1] == found);
                assert forall|j: int| 0 <= j < i + 1 implies (#[trigger] connectors[j]).spec_id() != id by {
                    if j > 0 {
                        assert(rest[j - 1] == connectors[j]);
                    }
                }
            },
            None => {
                assert forall|j: int| 0 <= j < connectors.len() implies (#[trigger] connectors[j]).spec_id() != id by {
                    if j > 0 {
                        assert(rest[j - 1] == connectors[j]);
                    }
                }
            },
        }
    }
}

/// The stream that is found for an id is the first with that id, and one is found if there is
/// any.
pub proof fn law_first_stream_is_found(streams: Seq<RuntimeStreamConfig>, id: i32)
    ensures
        match find_stream(streams, id) {
            Some(found) => exists|i: int|
                {
                    &&& 0 <= i < streams.len()
                    &&& #[trigger] streams[i] == found
                    &&& found.spec_stream().id == id
                    &&& forall|j: int| 0 <= j < i ==> (#[trigger] streams[j]).spec_stream().id != id
                },
            None => forall|j: int| 0 <= j < streams.len() ==> (#[trigger] streams[j]).spec_stream().id != id,
        },
    decreases streams.len(),
{
    if streams.len() > 0 && streams[0].spec_stream().id != id {
        let rest = streams.drop_first();
        law_first_stream_is_found(rest, id);
        assert forall|j: int| 0 <= j < rest.len() implies rest[j] == #[trigger] streams[j + 1] by {}
        match find_stream(rest, id) {
            Some(found) => {
                let i = choose|i: int|
                    {
                        &&& 0 <= i < rest.len()
                        &&& #[trigger] rest[i] == found
                        &&& found.spec_stream().id == id
                        &&& forall|j: int| 0 <= j < i ==> (#[trigger] rest[j]).spec_stream().id != id
                    };
                assert(streams[i + 1] == found);
                assert forall|j: int| 0 <= j < i + 1 implies (#[trigger] streams[j]).spec_stream().id != id by {
                    if j > 0 {
                        assert(rest[j - 1] == streams[j]);
                    }
                }
            },
            None => {
                assert forall|j: int| 0 <= j < streams.len() implies (#[trigger] streams[j]).spec_stream().id != id by {
                    if j > 0 {
                        assert(rest[j - 1] == streams[j]);
                    }
                }
            },
        }
    }
}

/// How messages go from one stream to another is what the first link between the two says,
/// or the default where there is none; links between other streams have no say.
pub proof fn law_first_link_decides(
    links: Seq<LinkConfig>,
    default_semantics: CallSemantics,
    from: i32,
    to: i32,
)
    ensures
        ({
            let found = find_semantics(links, default_semantics, from, to);
            ||| {
                &&& found == default_semantics
                &&& forall|j: int|
                    0 <= j < links.len() ==> !((#[trigger] links[j]).from == from && links[j].to
                        == to)
            }
            ||| exists|i: int|
                {
                    &&& 0 <= i < links.len()
                    &&& (#[trigger] links[i]).from == from
                    &&& links[i].to == to
                    &&& found == links[i].call_semantics
                    &&& forall|j: int|
                        0 <= j < i ==> !((#[trigger] links[j]).from == from && links[j].to == to)
                }
        }),
    decreases links.len(),
{
    if links.len() > 0 && !(links[0].from == from && links[0].to == to) {
        let rest = links.drop_first();
        law_first_link_decides(rest, default_semantics, from, to);
        let found = find_semantics(rest, default_semantics, from, to);
        assert forall|j: int| 0 <= j < rest.len() implies rest[j] == #[trigger] links[j + 1] by {}
        if exists|i: int|
            {
                &&& 0 <= i < rest.len()
                &&& (#[trigger] rest[i]).from == from
                &&& rest[i].to == to
                &&& found == rest[i].call_semantics
                &&& forall|j: int|
                    0 <= j < i ==> !((#[trigger] rest[j]).from == from && rest[j].to == to)
            } {
            let i = choose|i: int|
                {
                    &&& 0 <= i < rest.len()
                    &&& (#[trigger] rest[i]).from == from
                    &&& rest[i].to == to
                    &&& found == rest[i].call_semantics
                    &&& forall|j: int|
                        0 <= j < i ==> !((#[trigger] rest[j]).from == from && rest[j].to == to)
                };
            assert(links[i + 1].from == from);
            assert forall|j: int| 0 <= j < i + 1 implies !((#[trigger] links[j]).from == from
                && links[j].to == to) by {
                if j > 0 {
                    assert(rest[j - 1] == links[j]);
                }
            }
        } else {
            assert forall|j: int| 0 <= j < links.len() implies !((#[trigger] links[j]).from == from
                && links[j].to == to) by {
                if j > 0 {
                    assert(rest[j - 1] == links[j]);
                }
            }
        }
    }
}

/// A message waits for its consumer only where the consumer is called as a function.
pub proof fn law_only_function_calls_wait(semantics: CallSemantics)
    ensures
        !semantics.spec_is_async() <==> semantics == CallSemantics::FunctionCall,
{
}

/// Every method goes by a name of its own, and one that is not defined by none.
pub proof fn law_methods_have_names_of_their_own(a: HttpMethodType, b: HttpMethodType)
    ensures
        method_text(a) == method_text(b) ==> a == b,
        method_text(a).len() == 0 <==> a == HttpMethodType::Undefined,
        method_text(HttpMethodType::Get) == "GET"@,
        method_text(HttpMethodType::Post) == "POST"@,
{
    reveal_strlit("GET");
    reveal_strlit("POST");
    reveal_strlit("PUT");
    reveal_strlit("PATCH");
    reveal_strlit("DELETE");
    reveal_strlit("HEAD");
    reveal_strlit("OPTIONS");
    reveal_strlit("TRACE");
    reveal_strlit("CONNECT");
    reveal_strlit("");
    assert("GET"@.len() == 3 && "GET"@[0] == 'G');
    assert("PUT"@.len() == 3 && "PUT"@[0] == 'P');
    assert("POST"@.len() == 4 && "POST"@[0] == 'P');
    assert("HEAD"@.len() == 4 && "HEAD"@[0] == 'H');
    assert("PATCH"@.len() == 5 && "PATCH"@[0] == 'P');
    assert("TRACE"@.len() == 5 && "TRACE"@[0] == 'T');
    assert("DELETE"@.len() == 6);
    assert("OPTIONS"@.len() == 7 && "OPTIONS"@[0] == 'O');
    assert("CONNECT"@.len() == 7 && "CONNECT"@[0] == 'C');
}

/// The parts of a configuration are those of the kind that it is of.
pub proof fn law_configurations_keep_their_parts(
    stream: InputStreamConfig,
    sink: SinkStreamConfig,
    join: JoinStreamConfig,
    plain: StreamConfig,
)
    ensures
        RuntimeStreamConfig::Input(stream).spec_stream() == stream.stream,
        RuntimeStreamConfig::Sink(sink).spec_stream() == sink.stream,
        RuntimeStreamConfig::Join(join).spec_stream() == join.stream,
        RuntimeStreamConfig::Plain(plain).spec_stream() == plain,
{
}

/// An endpoint has the id, the name and the connector that its configuration gives it.
pub proof fn law_endpoints_keep_their_parts(
    grpc: GrpcEndpointConfig,
    http: HttpEndpointConfig,
    kafka: KafkaEndpointConfig,
    cron: CronEndpointConfig,
    custom: CustomEndpointConfig,
)
    ensures
        RuntimeEndpointConfig::Grpc(grpc).spec_id() == grpc.id,
        RuntimeEndpointConfig::Http(http).spec_id() == http.id,
        RuntimeEndpointConfig::Kafka(kafka).spec_id() == kafka.id,
        RuntimeEndpointConfig::Cron(cron).spec_id() == cron.id,
        RuntimeEndpointConfig::Custom(custom).spec_id() == custom.id,
        RuntimeEndpointConfig::Grpc(grpc).spec_name() == grpc.name,
        RuntimeEndpointConfig::Http(http).spec_name() == http.name,
        RuntimeEndpointConfig::Kafka(kafka).spec_name() == kafka.name,
        RuntimeEndpointConfig::Cron(cron).spec_name() == cron.name,
        RuntimeEndpointConfig::Custom(custom).spec_name() == custom.name,
        RuntimeEndpointConfig::Grpc(grpc).spec_data_connector_id() == grpc.id_data_connector,
        RuntimeEndpointConfig::Http(http).spec_data_connector_id() == http.id_data_connector,
        RuntimeEndpointConfig::Kafka(kafka).spec_data_connector_id() == kafka.id_data_connector,
        RuntimeEndpointConfig::Cron(cron).spec_data_connector_id() == cron.id_data_connector,
        RuntimeEndpointConfig::Custom(custom).spec_data_connector_id() == custom.id_data_connector,
{
}

/// A connector has the id and the name that its configuration gives it.
pub proof fn law_connectors_keep_their_parts(
    grpc: GrpcDataConnectorConfig,
    http: HttpDataConnectorConfig,
    kafka: KafkaDataConnectorConfig,
    cron: CronDataConnectorConfig,
    custom: CustomDataConnectorConfig,
)
    ensures
        RuntimeDataConnectorConfig::Grpc(grpc).spec_id() == grpc.id,
        RuntimeDataConnectorConfig::Http(http).spec_id() == http.id,
        RuntimeDataConnectorConfig::Kafka(kafka).spec_id() == kafka.id,
        RuntimeDataConnectorConfig::Cron(cron).spec_id() == cron.id,
        RuntimeDataConnectorConfig::Custom(custom).spec_id() == custom.id,
        RuntimeDataConnectorConfig::Grpc(grpc).spec_name() == grpc.name,
        RuntimeDataConnectorConfig::Http(http).spec_name() == http.name,
        RuntimeDataConnectorConfig::Kafka(kafka).spec_name() == kafka.name,
        RuntimeDataConnectorConfig::Cron(cron).spec_name() == cron.name,
        RuntimeDataConnectorConfig::Custom(custom).spec_name() == custom.name,
{
}

/// A method goes by its name on the wire.
pub proof fn law_methods_are_named_as_on_the_wire(method: HttpMethodType)
    ensures
        match method {
            HttpMethodType::Get => method_text(method) == "GET"@,
            HttpMethodType::Post => method_text(method) == "POST"@,
            HttpMethodType::Put => method_text(method) == "PUT"@,
            HttpMethodType::Patch => method_text(method) == "PATCH"@,
            HttpMethodType::Delete => method_text(method) == "DELETE"@,
            HttpMethodType::Head => method_text(method) == "HEAD"@,
            HttpMethodType::Options => method_text(method) == "OPTIONS"@,
            HttpMethodType::Trace => method_text(method) == "TRACE"@,
            HttpMethodType::Connect => method_text(method) == "CONNECT"@,
            HttpMethodType::Undefined => method_text(method) == ""@,
        },
{
}

} // verus!
