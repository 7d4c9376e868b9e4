//! The gRPC data source.
use tokio::sync::Semaphore;
use vstd::prelude::*;
use vstd::string::*;

use crate::datasink::grpc::tonic::not_grpc_text;
use crate::operators::input::{input_endpoint, InputStream};
use crate::runtime::config::{GrpcDataConnectorConfig, RuntimeDataConnectorConfig};
use crate::runtime::environment::RuntimeEnvironment;
use crate::runtime::error::{RuntimeError, RuntimeErrorView, RuntimeResult};
use crate::runtime::lifecycle::{start_error, LifecycleState};
use crate::runtime::lookup::{
    connector_missing_text, connector_of, endpoint_missing_text, endpoint_of, Side,
};
use crate::runtime::text::quoted;

verus! {

/// How a gRPC server is built.
#[derive(Clone, Copy, Debug)]
pub struct TonicDataSourceOptions {
    /// How many responses of one streaming call may queue up. This does not limit how
    /// many calls run.
    pub stream_buffer_capacity: usize,
}

impl Default for TonicDataSourceOptions {
    fn default() -> (options: TonicDataSourceOptions)
        ensures
            options.stream_buffer_capacity == 16,
    {
        TonicDataSourceOptions { stream_buffer_capacity: 16 }
    }
}

/// Reads `tokio::sync::Semaphore::MAX_PERMITS`: the largest number of permits of a
/// semaphore, and so of places in a channel, is an eighth of the largest `usize`.
#[verifier::external_body]
fn max_permits() -> (most: usize)
    ensures
        most as int == usize::MAX as int / 8,
{
    Semaphore::MAX_PERMITS
}

/// Whether a channel can have that many places.
pub open spec fn channel_capacity(capacity: usize) -> bool {
    0 < capacity <= usize::MAX as int / 8
}

pub open spec fn capacity_text() -> Seq<char> {
    "gRPC server stream_buffer_capacity is outside the supported channel capacity range"@
}

/// The gRPC data source of a connector.
pub struct TonicDataSource {
    id: i32,
    name: String,
    state: LifecycleState,
    stream_buffer_capacity: usize,
}

impl TonicDataSource {
    pub closed spec fn spec_id(&self) -> i32 {
        self.id
    }

    pub closed spec fn spec_name(&self) -> Seq<char> {
        self.name@
    }

    pub closed spec fn spec_state(&self) -> LifecycleState {
        self.state
    }

    pub closed spec fn spec_capacity(&self) -> usize {
        self.stream_buffer_capacity
    }

    /// A data source that has not started.
    pub open spec fn is_new(&self, config: GrpcDataConnectorConfig, capacity: usize) -> bool {
        &&& self.spec_id() == config.id
        &&& self.spec_name() == config.name@
        &&& self.spec_capacity() == capacity
        &&& self.spec_state() == LifecycleState::Idle
    }

    /// The data source of a connector, with the default options.
    pub fn from_config(config: &GrpcDataConnectorConfig) -> (result: RuntimeResult<TonicDataSource>)
        ensures
            result matches Ok(source) && source.is_new(*config, 16),
    {
        Self::from_config_with_options(config, TonicDataSourceOptions::default())
    }

    /// The data source of a connector.
    pub fn from_config_with_options(
        config: &GrpcDataConnectorConfig,
        options: TonicDataSourceOptions,
    ) -> (result: RuntimeResult<TonicDataSource>)
        ensures
            match result {
                Ok(source) => {
                    &&& channel_capacity(options.stream_buffer_capacity)
                    &&& source.is_new(*config, options.stream_buffer_capacity)
                },
                Err(error) => {
                    &&& !channel_capacity(options.stream_buffer_capacity)
                    &&& error@ == RuntimeErrorView::InvalidConfiguration(capacity_text())
                },
            },
    {
        if options.stream_buffer_capacity == 0 || options.stream_buffer_capacity > max_permits() {
            return Err(
                RuntimeError::invalid(
                    "gRPC server stream_buffer_capacity is outside the supported channel capacity range",
                ),
            );
        }
        Ok(
            TonicDataSource {
                id: config.id,
                name: config.name.clone(),
                state: LifecycleState::Idle,
                stream_buffer_capacity: options.stream_buffer_capacity,
            },
        )
    }

    pub fn stream_buffer_capacity(&self) -> (capacity: usize)
        ensures
            capacity == self.spec_capacity(),
    {
        self.stream_buffer_capacity
    }

    /// The data source of the connector that an input's endpoint refers to.
    pub fn from_input<T, R, E, C>(
        input: &InputStream<T, R, E, C>,
        environment: &RuntimeEnvironment,
    ) -> (result: RuntimeResult<TonicDataSource>)
        requires
            input.spec_stream().belongs(environment@),
        ensures
            ({
                let config = environment@.config;
                let id = input_endpoint(config, input.spec_stream().spec_id());
                let name = environment@.nodes[input.spec_stream().spec_node()].name;
                match config.spec_endpoint(id) {
                    None => result is Err && result->Err_0@
                        == RuntimeErrorView::InvalidConfiguration(
                        endpoint_missing_text(Side::Input, id, name),
                    ),
                    Some(endpoint) => match config.spec_data_connector(
                        endpoint.spec_data_connector_id(),
                    ) {
                        None => result is Err && result->Err_0@
                            == RuntimeErrorView::InvalidConfiguration(
                            connector_missing_text(
                                endpoint.spec_data_connector_id(),
                                endpoint.spec_name()@,
                            ),
                        ),
                        Some(RuntimeDataConnectorConfig::Grpc(connector)) => result matches Ok(
                            source,
                        ) && source.is_new(connector, 16),
                        Some(_) => result is Err && result->Err_0@
                            == RuntimeErrorView::InvalidConfiguration(
                            not_grpc_text(endpoint.spec_name()@),
                        ),
                    },
                }
            }),
    {
        let config = environment.runtime_config();
        let name = input.stream().name(environment);
        let endpoint = match endpoint_of(
            config,
            Side::Input,
            input.endpoint_id(environment),
            name.as_str(),
        ) {
            Ok(endpoint) => endpoint,
            Err(error) => return Err(error),
        };
        let connector = match connector_of(
            config,
            endpoint.data_connector_id(),
            endpoint.name().as_str(),
        ) {
            Ok(connector) => connector,
            Err(error) => return Err(error),
        };
        match connector {
            RuntimeDataConnectorConfig::Grpc(config) => Self::from_config(config),
            _ => {
                let mut text = String::from_str("endpoint ");
                text.append(quoted(endpoint.name().as_str()).as_str());
                text.append(" does not reference a gRPC data connector");
                Err(RuntimeError::InvalidConfiguration(text))
            },
        }
    }

    pub fn id(&self) -> (id: i32)
        ensures
            id == self.spec_id(),
    {
        self.id
    }

    pub fn name(&self) -> (name: &str)
        ensures
            name@ == self.spec_name(),
    {
        self.name.as_str()
    }

    /// Starts the data source, once.
    pub fn start(&mut self) -> (result: RuntimeResult<()>)
        ensures
            match result {
                Ok(_) => {
                    &&& start_error(old(self).spec_state(), old(self).spec_name()) is None
                    &&& final(self).spec_state() == LifecycleState::Running
                },
                Err(error) => {
                    &&& start_error(old(self).spec_state(), old(self).spec_name()) == Some(error@)
                    &&& final(self).spec_state() == old(self).spec_state()
                },
            },
            final(self).spec_id() == old(self).spec_id(),
            final(self).spec_name() == old(self).spec_name(),
            final(self).spec_capacity() == old(self).spec_capacity(),
    {
        match self.state.check_start(&self.name) {
            Ok(_) => {
                self.state = LifecycleState::Running;
                Ok(())
            },
            Err(error) => Err(error),
        }
    }

    /// Stops the data source for good.
    pub fn stop(&mut self)
        ensures
            final(self).spec_state() == LifecycleState::Stopped,
            final(self).spec_id() == old(self).spec_id(),
            final(self).spec_name() == old(self).spec_name(),
            final(self).spec_capacity() == old(self).spec_capacity(),
    {
        self.state = LifecycleState::Stopped;
    }
}

/// A stream of responses can queue up if and only if there is room for one and for no more than
/// a channel can hold.
pub proof fn law_queues_have_room(capacity: usize)
    ensures
        channel_capacity(capacity) <==> capacity >= 1 && capacity <= usize::MAX / 8,
{
}

} // verus!
