//! The gRPC data sink: a set of channels that requests take in turn.
use tonic::transport::Endpoint;
use vstd::arithmetic::div_mod::*;
use vstd::prelude::*;
use vstd::string::*;

use crate::datasink::grpc::endpoint::{sink_configs, sink_lookup_error};
use crate::operators::sink::SinkStreamWithResult;
use crate::runtime::config::{GrpcDataConnectorConfig, RuntimeConfig, RuntimeDataConnectorConfig};
use crate::runtime::environment::RuntimeEnvironment;
use crate::runtime::error::{RuntimeError, RuntimeErrorView, RuntimeResult};
use crate::runtime::lifecycle::{start_error, LifecycleState};
use crate::runtime::lookup::{connector_of, endpoint_of, Side};
use crate::runtime::text::{debug_text, integer, integer_text, quoted};

verus! {

/// Whether a channel can be made for an address.
pub uninterp spec fn endpoint_address(address: Seq<char>) -> bool;

/// Calls `tonic::transport::Endpoint::from_shared`, which accepts an address or
/// refuses it, by its characters alone. A refusal always reads "invalid URI".
#[verifier::external_body]
pub(crate) fn check_address(address: &str) -> (result: Result<(), String>)
    ensures
        match result {
            Ok(_) => endpoint_address(address@),
            Err(text) => !endpoint_address(address@) && text@ == "invalid URI"@,
        },
{
    Endpoint::from_shared(address.to_owned()).map(|_| ()).map_err(|error| error.to_string())
}

/// The channels that the driver is asked to make.
pub struct ConnectPlan {
    pub address: String,
    pub connections_count: usize,
}

/// The gRPC data sink. `C` is a channel.
pub struct TonicDataSink<C> {
    id: i32,
    name: String,
    channels: Vec<C>,
    next_channel: usize,
    state: LifecycleState,
}

/// What is wrong with a connector, if anything is.
pub open spec fn config_error(config: GrpcDataConnectorConfig) -> Option<RuntimeErrorView> {
    if config.connections_count == 0 {
        Some(
            RuntimeErrorView::InvalidConfiguration("gRPC connections_count must be at least 1"@),
        )
    } else if !endpoint_address(config.address@) {
        Some(RuntimeErrorView::InvalidConfiguration("invalid URI"@))
    } else {
        None
    }
}

/// The gRPC connector `id`, or the error of its lookup.
pub open spec fn connector_lookup(config: RuntimeConfig, id: i32, name: Seq<char>) -> Result<
    GrpcDataConnectorConfig,
    RuntimeErrorView,
> {
    match config.spec_data_connector(id) {
        None => Err(
            RuntimeErrorView::InvalidConfiguration(
                "gRPC data connector "@ + integer_text(id as int) + " is not configured"@,
            ),
        ),
        Some(RuntimeDataConnectorConfig::Grpc(found)) => Ok(found),
        Some(_) => Err(
            RuntimeErrorView::InvalidConfiguration(
                "data connector "@ + debug_text(name) + " is not gRPC"@,
            ),
        ),
    }
}

/// The error of an endpoint whose connector is of another transport.
pub open spec fn not_grpc_text(endpoint: Seq<char>) -> Seq<char> {
    "endpoint "@ + debug_text(endpoint) + " does not reference a gRPC data connector"@
}

impl<C> TonicDataSink<C> {
    pub closed spec fn spec_id(&self) -> i32 {
        self.id
    }

    pub closed spec fn spec_name(&self) -> Seq<char> {
        self.name@
    }

    pub closed spec fn spec_channels(&self) -> Seq<C> {
        self.channels@
    }

    pub closed spec fn spec_next(&self) -> usize {
        self.next_channel
    }

    pub closed spec fn spec_state(&self) -> LifecycleState {
        self.state
    }

    /// There are no channels but while the data sink runs.
    pub open spec fn wf(&self) -> bool {
        self.spec_channels().len() > 0 ==> self.spec_state() == LifecycleState::Running
    }

    /// A data sink that has not started: it has no channels.
    pub open spec fn is_new(&self, id: i32, name: Seq<char>) -> bool {
        &&& self.spec_id() == id
        &&& self.spec_name() == name
        &&& self.spec_channels().len() == 0
        &&& self.spec_next() == 0
        &&& self.spec_state() == LifecycleState::Idle
    }

    /// Whether channels can be made as `config` says.
    pub fn validate_config(config: &GrpcDataConnectorConfig) -> (result: RuntimeResult<()>)
        ensures
            match result {
                Ok(_) => config_error(*config) is None,
                Err(error) => config_error(*config) == Some(error@),
            },
    {
        if config.connections_count == 0 {
            return Err(RuntimeError::invalid("gRPC connections_count must be at least 1"));
        }
        match check_address(config.address.as_str()) {
            Ok(_) => Ok(()),
            Err(text) => Err(RuntimeError::InvalidConfiguration(text)),
        }
    }

    fn new(id: i32, name: String) -> (sink: TonicDataSink<C>)
        ensures
            sink.is_new(id, name@),
    {
        TonicDataSink {
            id,
            name,
            channels: Vec::new(),
            next_channel: 0,
            state: LifecycleState::Idle,
        }
    }

    /// The data sink of a connector.
    pub fn from_config(config: &GrpcDataConnectorConfig) -> (result: RuntimeResult<
        TonicDataSink<C>,
    >)
        ensures
            match result {
                Ok(sink) => config_error(*config) is None && sink.is_new(config.id, config.name@),
                Err(error) => config_error(*config) == Some(error@),
            },
    {
        match Self::validate_config(config) {
            Ok(_) => Ok(Self::new(config.id, config.name.clone())),
            Err(error) => Err(error),
        }
    }

    /// The data sink of the connector that a sink stream's endpoint refers to.
    pub fn from_stream<T, R, E, K>(
        stream: &SinkStreamWithResult<T, R, E, K>,
        environment: &RuntimeEnvironment,
    ) -> (result: RuntimeResult<TonicDataSink<C>>)
        requires
            stream.spec_result_stream().belongs(environment@),
        ensures
            ({
                let id = stream.spec_result_stream().spec_id();
                let name = environment@.nodes[stream.spec_result_stream().spec_node()].name;
                let configs = sink_configs(environment@.config, id);
                match (sink_lookup_error(environment@.config, id, name), result) {
                    (Some(text), Err(error)) => error@
                        == RuntimeErrorView::InvalidConfiguration(text),
                    (Some(_), Ok(_)) => false,
                    (None, outcome) => match configs.1->0 {
                        RuntimeDataConnectorConfig::Grpc(config) => match outcome {
                            Ok(sink) => config_error(config) is None && sink.is_new(
                                config.id,
                                config.name@,
                            ),
                            Err(error) => config_error(config) == Some(error@),
                        },
                        _ => outcome is Err && outcome->Err_0@
                            == RuntimeErrorView::InvalidConfiguration(
                            not_grpc_text(configs.0->0.spec_name()@),
                        ),
                    },
                }
            }),
    {
        let config = environment.runtime_config();
        let name = stream.name(environment);
        let endpoint = match endpoint_of(
            config,
            Side::Sink,
            stream.endpoint_id(environment),
            name.as_str(),
        ) {
            Ok(endpoint) => endpoint,
            Err(error) => return Err(error),
        };
        let connector = match connector_of(
            config,
            endpoint.data_connector_id(),
            endpoint.name().as_str(),
        ) {
            Ok(connector) => connector,
            Err(error) => return Err(error),
        };
        match connector {
            RuntimeDataConnectorConfig::Grpc(config) => Self::from_config(config),
            _ => {
                let mut text = String::from_str("endpoint ");
                text.append(quoted(endpoint.name().as_str()).as_str());
                text.append(" does not reference a gRPC data connector");
                Err(RuntimeError::InvalidConfiguration(text))
            },
        }
    }

    pub fn id(&self) -> (id: i32)
        ensures
            id == self.spec_id(),
    {
        self.id
    }

    pub fn name(&self) -> (name: &str)
        ensures
            name@ == self.spec_name(),
    {
        self.name.as_str()
    }

    /// The channel whose turn it is. A data sink without channels has stopped or has
    /// not started.
    pub fn channel(&mut self) -> (result: RuntimeResult<&C>)
        ensures
            match result {
                Ok(channel) => {
                    &&& old(self).spec_channels().len() > 0
                    &&& *channel == old(self).spec_channels()[turn(
                        old(self).spec_next() as int,
                        0,
                        old(self).spec_channels().len() as int,
                    )]
                    &&& final(self).spec_next() == (if old(self).spec_next() == usize::MAX {
                        0
                    } else {
                        old(self).spec_next() + 1
                    })
                },
                Err(error) => {
                    &&& old(self).spec_channels().len() == 0
                    &&& error@ == RuntimeErrorView::ResourceStopped(old(self).spec_name())
                    &&& final(self).spec_next() == old(self).spec_next()
                },
            },
            old(self).wf() ==> final(self).wf(),
            final(self).spec_channels() == old(self).spec_channels(),
            final(self).spec_id() == old(self).spec_id(),
            final(self).spec_name() == old(self).spec_name(),
            final(self).spec_state() == old(self).spec_state(),
    {
        if self.channels.len() == 0 {
            return Err(RuntimeError::ResourceStopped(self.name.clone()));
        }
        let turn: usize = self.next_channel;
        self.next_channel = turn.wrapping_add(1);
        let index: usize = turn % self.channels.len();
        Ok(&self.channels[index])
    }

    /// Lets the data sink go to another address. Channels are asked for only while
    /// it runs.
    pub fn reload_address(&self, address: String, environment: &RuntimeEnvironment) -> (result:
        RuntimeResult<Option<ConnectPlan>>)
        ensures
            match result {
                Ok(plan) => {
                    let connector = connector_lookup(
                        environment@.config,
                        self.spec_id(),
                        self.spec_name(),
                    );
                    &&& endpoint_address(address@)
                    &&& connector is Ok
                    &&& plan is Some <==> self.spec_state() == LifecycleState::Running
                    &&& plan matches Some(p) ==> p.address@ == address@ && p.connections_count
                        == connector->Ok_0.connections_count
                },
                Err(error) => if !endpoint_address(address@) {
                    error@ == RuntimeErrorView::InvalidConfiguration("invalid URI"@)
                } else {
                    connector_lookup(environment@.config, self.spec_id(), self.spec_name())
                        == Err::<GrpcDataConnectorConfig, _>(error@)
                },
            },
    {
        match check_address(address.as_str()) {
            Ok(_) => {},
            Err(text) => return Err(RuntimeError::InvalidConfiguration(text)),
        }
        let config = match self.connector_config(environment) {
            Ok(config) => config,
            Err(error) => return Err(error),
        };
        match self.state {
            LifecycleState::Running => Ok(
                Some(ConnectPlan { address, connections_count: config.connections_count }),
            ),
            _ => Ok(None),
        }
    }

    fn connector_config(&self, environment: &RuntimeEnvironment) -> (result: RuntimeResult<
        GrpcDataConnectorConfig,
    >)
        ensures
            match result {
                Ok(config) => connector_lookup(
                    environment@.config,
                    self.spec_id(),
                    self.spec_name(),
                ) == Ok::<_, RuntimeErrorView>(config),
                Err(error) => connector_lookup(
                    environment@.config,
                    self.spec_id(),
                    self.spec_name(),
                ) == Err::<GrpcDataConnectorConfig, _>(error@),
            },
    {
        match environment.runtime_config().data_connector_by_id(self.id) {
            None => {
                let mut text = String::from_str("gRPC data connector ");
                text.append(integer(self.id).as_str());
                text.append(" is not configured");
                Err(RuntimeError::InvalidConfiguration(text))
            },
            Some(RuntimeDataConnectorConfig::Grpc(config)) => Ok(config.clone()),
            Some(_) => {
                let mut text = String::from_str("data connector ");
                text.append(quoted(self.name.as_str()).as_str());
                text.append(" is not gRPC");
                Err(RuntimeError::InvalidConfiguration(text))
            },
        }
    }

    /// Starts the data sink and says which channels to make. A data sink that finds
    /// its configuration at fault counts as started all the same.
    pub fn start(&mut self, environment: &RuntimeEnvironment) -> (result: RuntimeResult<
        ConnectPlan,
    >)
        ensures
            old(self).wf() ==> final(self).wf(),
            final(self).spec_id() == old(self).spec_id(),
            final(self).spec_name() == old(self).spec_name(),
            final(self).spec_channels() == old(self).spec_channels(),
            final(self).spec_next() == old(self).spec_next(),
            final(self).spec_state() == (if old(self).spec_state() == LifecycleState::Idle {
                LifecycleState::Running
            } else {
                old(self).spec_state()
            }),
            ({
                let refused = start_error(old(self).spec_state(), old(self).spec_name());
                let connector = connector_lookup(
                    environment@.config,
                    old(self).spec_id(),
                    old(self).spec_name(),
                );
                match result {
                    Ok(plan) => {
                        &&& refused is None
                        &&& connector is Ok
                        &&& config_error(connector->Ok_0) is None
                        &&& plan.address@ == connector->Ok_0.address@
                        &&& plan.connections_count == connector->Ok_0.connections_count
                    },
                    Err(error) => if refused is Some {
                        refused == Some(error@)
                    } else if connector is Err {
                        connector == Err::<GrpcDataConnectorConfig, _>(error@)
                    } else {
                        config_error(connector->Ok_0) == Some(error@)
                    },
                }
            }),
    {
        match self.state.check_start(&self.name) {
            Ok(_) => {},
            Err(error) => return Err(error),
        }
        self.state = LifecycleState::Running;
        let config = match self.connector_config(environment) {
            Ok(config) => config,
            Err(error) => return Err(error),
        };
        match Self::validate_config(&config) {
            Ok(_) => Ok(
                ConnectPlan {
                    address: config.address,
                    connections_count: config.connections_count,
                },
            ),
            Err(error) => Err(error),
        }
    }

    /// Takes new channels into use, beginning with the first, while the data sink runs.
    /// Else they are dropped.
    pub fn use_channels(&mut self, channels: Vec<C>)
        ensures
            old(self).wf() ==> final(self).wf(),
            final(self).spec_channels() == (if old(self).spec_state()
                == LifecycleState::Running {
                channels@
            } else {
                old(self).spec_channels()
            }),
            final(self).spec_next() == (if old(self).spec_state() == LifecycleState::Running {
                0
            } else {
                old(self).spec_next()
            }),
            final(self).spec_id() == old(self).spec_id(),
            final(self).spec_name() == old(self).spec_name(),
            final(self).spec_state() == old(self).spec_state(),
    {
        if self.state == LifecycleState::Running {
            self.channels = channels;
            self.next_channel = 0;
        }
    }

    /// Stops the data sink for good and drops its channels.
    pub fn stop(&mut self)
        ensures
            final(self).wf(),
            final(self).spec_state() == LifecycleState::Stopped,
            final(self).spec_channels().len() == 0,
            final(self).spec_next() == old(self).spec_next(),
            final(self).spec_id() == old(self).spec_id(),
            final(self).spec_name() == old(self).spec_name(),
    {
        self.state = LifecycleState::Stopped;
        self.channels.clear();
    }
}

/// The channel that the request `k` places after number `first` takes.
pub open spec fn turn(first: int, k: int, count: int) -> int {
    (first + k) % count
}

/// Requests take the channels in turn: among as many requests as there are
/// channels, each channel is taken exactly once.
pub proof fn law_channels_take_turns(first: int, count: int, channel: int)
    requires
        0 <= first,
        0 <= channel < count,
    ensures
        exists|k: int| 0 <= k < count && #[trigger] turn(first, k, count) == channel,
        forall|a: int, b: int|
            0 <= a < count && 0 <= b < count && #[trigger] turn(first, a, count)
                == #[trigger] turn(first, b, count) ==> a == b,
{
    let k = (channel - first) % count;
    let q = (channel - first) / count;
    lemma_mod_bound(channel - first, count);
    lemma_fundamental_div_mod(channel - first, count);
    assert(first + k == (-q) * count + channel) by (nonlinear_arith)
        requires
            channel - first == count * q + k,
    ;
    lemma_fundamental_div_mod_converse(first + k, count, -q, channel);
    assert(turn(first, k, count) == channel);
    assert forall|a: int, b: int|
        0 <= a < count && 0 <= b < count && #[trigger] turn(first, a, count) == #[trigger] turn(
            first,
            b,
            count,
        ) implies a == b by {
        lemma_fundamental_div_mod(first + a, count);
        lemma_fundamental_div_mod(first + b, count);
        let p = (first + a) / count;
        let r = (first + b) / count;
        assert(a - b == count * (p - r)) by (nonlinear_arith)
            requires
                first + a == count * p + (first + a) % count,
                first + b == count * r + (first + b) % count,
                (first + a) % count == (first + b) % count,
        ;
        assert(p == r) by (nonlinear_arith)
            requires
                a - b == count * (p - r),
                0 <= a < count,
                0 <= b < count,
        ;
        assert(a == b) by (nonlinear_arith)
            requires
                a - b == count * (p - r),
                p == r,
        ;
    }
}

/// A connector can be used if and only if it has a connection and an address that is one; the
/// one that a sink uses is the gRPC connector that is configured under its id.
pub proof fn law_connectors_are_checked(
    config: GrpcDataConnectorConfig,
    runtime: RuntimeConfig,
    id: i32,
    name: Seq<char>,
)
    ensures
        config_error(config) is None <==> config.connections_count > 0 && endpoint_address(
            config.address@,
        ),
        config.connections_count == 0 ==> config_error(config) == Some(
            RuntimeErrorView::InvalidConfiguration("gRPC connections_count must be at least 1"@),
        ),
        config.connections_count > 0 && !endpoint_address(config.address@) ==> config_error(config)
            == Some(RuntimeErrorView::InvalidConfiguration("invalid URI"@)),
        connector_lookup(runtime, id, name) is Ok <==> (runtime.spec_data_connector(id) matches Some(
            RuntimeDataConnectorConfig::Grpc(_),
        )),
        connector_lookup(runtime, id, name) matches Ok(found) ==> runtime.spec_data_connector(id)
            == Some(RuntimeDataConnectorConfig::Grpc(found)),
        runtime.spec_data_connector(id) is None ==> connector_lookup(runtime, id, name) == Err::<
            GrpcDataConnectorConfig,
            RuntimeErrorView,
        >(
            RuntimeErrorView::InvalidConfiguration(
                "gRPC data connector "@ + integer_text(id as int) + " is not configured"@,
            ),
        ),
{
}

/// The channels are taken in their order, the first one again after the last.
pub proof fn law_channels_follow_one_another(first: int, k: int, count: int)
    requires
        0 <= first,
        0 <= k,
        0 < count,
    ensures
        0 <= turn(first, k, count) < count,
        first + k < count ==> turn(first, k, count) == first + k,
        turn(first, k, count) == turn(first + k, 0, count),
        turn(first, k + 1, count) == (if turn(first, k, count) + 1 == count {
            0
        } else {
            turn(first, k, count) + 1
        }),
{
    let n = first + k;
    lemma_mod_bound(n, count);
    lemma_fundamental_div_mod(n, count);
    let q = n / count;
    let r = n % count;
    if first + k < count {
        lemma_fundamental_div_mod_converse(n, count, 0, n);
    }
    if r + 1 == count {
        assert(n + 1 == (q + 1) * count + 0) by (nonlinear_arith)
            requires
                n == count * q + r,
                r + 1 == count,
        ;
        lemma_fundamental_div_mod_converse(n + 1, count, q + 1, 0);
    } else {
        assert(n + 1 == q * count + (r + 1)) by (nonlinear_arith)
            requires
                n == count * q + r,
        ;
        lemma_fundamental_div_mod_converse(n + 1, count, q, r + 1);
    }
}

} // verus!
