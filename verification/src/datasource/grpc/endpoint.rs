//! The endpoints of a gRPC source.
use vstd::prelude::*;

use crate::datasource::endpoint::{attach_endpoint, SetUp, SourceEndpoint};
use crate::datasource::grpc::request::{GrpcEvent, GrpcMode, GrpcPhase, GrpcRequest};
use crate::datasource::request::{entered, identified, identify, Entry};
use crate::operators::input::{input_endpoint, InputStream};
use crate::runtime::common::MessageContext;
use crate::runtime::environment::RuntimeEnvironment;
use crate::runtime::error::{HandlerResult, RuntimeResult};
use crate::runtime::request::{one, Action};

verus! {

pub const IMPLEMENTATION: &'static str = "rust/tonic";

/// What the endpoints of a gRPC source share.
pub struct GrpcTypedEndpointConsumer {
    pub base: SourceEndpoint,
}

impl GrpcTypedEndpointConsumer {
    /// Makes the endpoint of an input and attaches it.
    pub fn make<T, R, E>(
        input: &mut InputStream<T, R, E, i32>,
        connector_name: &str,
        endpoint_name: &str,
        environment: &mut RuntimeEnvironment,
        set_up: SetUp,
    ) -> (result: RuntimeResult<GrpcTypedEndpointConsumer>)
        ensures
            ({
                let id = old(input).spec_stream().spec_id();
                let endpoint_id = input_endpoint(old(environment)@.config, id);
                let has_result = old(input).spec_result_source() is Some;
                &&& match result {
                    Ok(consumer) => {
                        &&& set_up.failure() is None
                        &&& consumer.base.is_new(id, connector_name@, endpoint_name@, "grpc"@)
                    },
                    Err(error) => set_up.failure() == Some(error@),
                }
                &&& final(environment)@ == set_up.graph(
                    old(environment)@,
                    id,
                    endpoint_id,
                    has_result,
                )
                &&& final(input).spec_result_consumer() == set_up.results(
                    old(input).spec_result_consumer(),
                    endpoint_id,
                    has_result,
                    false,
                )
            }),
            final(input).spec_stream() == old(input).spec_stream(),
            final(input).spec_error_stream() == old(input).spec_error_stream(),
            final(input).spec_result_source() == old(input).spec_result_source(),
    {
        match attach_endpoint(
            input,
            connector_name,
            endpoint_name,
            "grpc",
            true,
            false,
            environment,
            set_up,
        ) {
            Ok(base) => Ok(GrpcTypedEndpointConsumer { base }),
            Err(error) => Err(error),
        }
    }

    /// Opens a request.
    pub fn open<Req, Res, X>(
        &self,
        mode: GrpcMode,
        context: MessageContext,
        request: Option<Req>,
    ) -> (opened: (GrpcRequest<Req, Res, X>, Vec<Action<Req, (), ()>>))
        ensures
            opened.0 == (GrpcRequest::<Req, Res, X> {
                mode,
                phase: GrpcPhase::Beginning { request },
            }),
            opened.1@ == one(Action::<Req, (), ()>::BeginRequest { context }),
    {
        GrpcRequest::open(mode, context, request)
    }

    /// Reports to a request that `begin_request` returned, and enters the request as
    /// pending where results come back to it. A request whose stream id is taken is
    /// turned away and leaves the other as it is.
    pub fn begin<Req, Res, X, T, R, E>(
        &mut self,
        input: &InputStream<T, R, E, i32>,
        request: GrpcRequest<Req, Res, X>,
        begun: HandlerResult<MessageContext, X>,
        fresh: String,
    ) -> (outcome: (GrpcRequest<Req, Res, X>, Vec<Action<Req, (), ()>>, Option<Entry>))
        requires
            old(self).base.pending.wf(),
            old(self).base.pending.spec_next() < u64::MAX,
            request.phase is Beginning,
        ensures
            final(self).base.input == old(self).base.input,
            final(self).base.endpoint_name == old(self).base.endpoint_name,
            final(self).base.scope == old(self).base.scope,
            ({
                let has_result = input.spec_result_source() is Some;
                match begun {
                    Ok(context) => {
                        let named = identified(context, fresh);
                        &&& outcome.2 matches Some(entry) && {
                            &&& named.spec_stream_id() == Some(entry.stream_id)
                            &&& entered(
                                false,
                                has_result,
                                entry.stream_id@,
                                old(self).base.pending,
                                final(self).base.pending,
                                entry.token,
                            )
                            &&& outcome.0 == request.next(
                                GrpcEvent::Begun {
                                    begun: Ok(named),
                                    registered: entry.token is Some,
                                },
                                has_result,
                            ).0
                            &&& outcome.1@ == request.next(
                                GrpcEvent::Begun {
                                    begun: Ok(named),
                                    registered: entry.token is Some,
                                },
                                has_result,
                            ).1
                        }
                    },
                    Err(error) => {
                        &&& outcome.2 is None
                        &&& final(self).base.pending == old(self).base.pending
                        &&& outcome.0 == request.next(
                            GrpcEvent::Begun { begun: Err(error), registered: false },
                            has_result,
                        ).0
                        &&& outcome.1@ == request.next(
                            GrpcEvent::Begun { begun: Err(error), registered: false },
                            has_result,
                        ).1
                    },
                }
            }),
    {
        let has_result: bool = input.result_stream().is_some();
        match begun {
            Ok(context) => {
                let (named, stream_id) = identify(context, fresh);
                let token: Option<u64> = if has_result {
                    self.base.pending.set(stream_id.clone())
                } else {
                    None
                };
                let registered: bool = token.is_some();
                let (request, actions) = request.step(
                    GrpcEvent::Begun { begun: Ok(named), registered },
                    has_result,
                );
                (request, actions, Some(Entry { stream_id, token }))
            },
            Err(error) => {
                let (request, actions) = request.step(
                    GrpcEvent::Begun { begun: Err(error), registered: false },
                    has_result,
                );
                (request, actions, None)
            },
        }
    }
}

impl GrpcTypedEndpointConsumer {
    /// Reports an event to a request of the input. Whether results come back is asked
    /// anew each time.
    pub fn report<Req, Res, X, T, R, E>(
        &self,
        input: &InputStream<T, R, E, i32>,
        request: GrpcRequest<Req, Res, X>,
        event: GrpcEvent<Req, Res, X>,
    ) -> (outcome: (GrpcRequest<Req, Res, X>, Vec<Action<Req, (), ()>>))
        ensures
            outcome.0 == request.next(event, input.spec_result_source() is Some).0,
            outcome.1@ == request.next(event, input.spec_result_source() is Some).1,
    {
        request.step(event, input.result_stream().is_some())
    }
}

/// The endpoint of a service method with one request and one response.
pub struct NoStreamingEndpointConsumer {
    pub endpoint_consumer: GrpcTypedEndpointConsumer,
}

/// The endpoint of a service method with a stream of requests and one response.
pub struct ClientStreamingEndpointConsumer {
    pub endpoint_consumer: GrpcTypedEndpointConsumer,
}

/// The endpoint of a service method with one request and a stream of responses.
pub struct ServerStreamingEndpointConsumer {
    pub endpoint_consumer: GrpcTypedEndpointConsumer,
}

/// Makes the endpoint of an input and attaches it.
pub fn make_grpc_no_streaming_endpoint_consumer<T, R, E>(
    input: &mut InputStream<T, R, E, i32>,
    connector_name: &str,
    endpoint_name: &str,
    environment: &mut RuntimeEnvironment,
    set_up: SetUp,
) -> (result: RuntimeResult<NoStreamingEndpointConsumer>)
    ensures
        ({
            let id = old(input).spec_stream().spec_id();
            let endpoint_id = input_endpoint(old(environment)@.config, id);
            let has_result = old(input).spec_result_source() is Some;
            &&& match result {
                Ok(consumer) => {
                    &&& set_up.failure() is None
                    &&& consumer.endpoint_consumer.base.is_new(
                        id,
                        connector_name@,
                        endpoint_name@,
                        "grpc"@,
                    )
                },
                Err(error) => set_up.failure() == Some(error@),
            }
            &&& final(environment)@ == set_up.graph(
                old(environment)@,
                id,
                endpoint_id,
                has_result,
            )
            &&& final(input).spec_result_consumer() == set_up.results(
                old(input).spec_result_consumer(),
                endpoint_id,
                has_result,
                false,
            )
        }),
        final(input).spec_stream() == old(input).spec_stream(),
        final(input).spec_error_stream() == old(input).spec_error_stream(),
        final(input).spec_result_source() == old(input).spec_result_source(),
{
    match GrpcTypedEndpointConsumer::make(
        input,
        connector_name,
        endpoint_name,
        environment,
        set_up,
    ) {
        Ok(endpoint_consumer) => Ok(NoStreamingEndpointConsumer { endpoint_consumer }),
        Err(error) => Err(error),
    }
}

impl NoStreamingEndpointConsumer {
    /// Opens a request of the service method.
    pub fn handle<Req, Res, X>(
        &self,
        context: MessageContext,
        request: Req,
    ) -> (opened: (GrpcRequest<Req, Res, X>, Vec<Action<Req, (), ()>>))
        ensures
            opened.0 == (GrpcRequest::<Req, Res, X> {
                mode: GrpcMode::Unary,
                phase: GrpcPhase::Beginning { request: Some(request) },
            }),
            opened.1@ == one(Action::<Req, (), ()>::BeginRequest { context }),
    {
        self.endpoint_consumer.open(GrpcMode::Unary, context, Some(request))
    }
}

/// Makes the endpoint of an input and attaches it.
pub fn make_grpc_client_streaming_endpoint_consumer<T, R, E>(
    input: &mut InputStream<T, R, E, i32>,
    connector_name: &str,
    endpoint_name: &str,
    environment: &mut RuntimeEnvironment,
    set_up: SetUp,
) -> (result: RuntimeResult<ClientStreamingEndpointConsumer>)
    ensures
        ({
            let id = old(input).spec_stream().spec_id();
            let endpoint_id = input_endpoint(old(environment)@.config, id);
            let has_result = old(input).spec_result_source() is Some;
            &&& match result {
                Ok(consumer) => {
                    &&& set_up.failure() is None
                    &&& consumer.endpoint_consumer.base.is_new(
                        id,
                        connector_name@,
                        endpoint_name@,
                        "grpc"@,
                    )
                },
                Err(error) => set_up.failure() == Some(error@),
            }
            &&& final(environment)@ == set_up.graph(
                old(environment)@,
                id,
                endpoint_id,
                has_result,
            )
            &&& final(input).spec_result_consumer() == set_up.results(
                old(input).spec_result_consumer(),
                endpoint_id,
                has_result,
                false,
            )
        }),
        final(input).spec_stream() == old(input).spec_stream(),
        final(input).spec_error_stream() == old(input).spec_error_stream(),
        final(input).spec_result_source() == old(input).spec_result_source(),
{
    match GrpcTypedEndpointConsumer::make(
        input,
        connector_name,
        endpoint_name,
        environment,
        set_up,
    ) {
        Ok(endpoint_consumer) => Ok(ClientStreamingEndpointConsumer { endpoint_consumer }),
        Err(error) => Err(error),
    }
}

impl ClientStreamingEndpointConsumer {
    /// Opens a request of the service method.
    pub fn handle<Req, Res, X>(
        &self,
        context: MessageContext,
    ) -> (opened: (GrpcRequest<Req, Res, X>, Vec<Action<Req, (), ()>>))
        ensures
            opened.0 == (GrpcRequest::<Req, Res, X> {
                mode: GrpcMode::ClientStreaming,
                phase: GrpcPhase::Beginning { request: None },
            }),
            opened.1@ == one(Action::<Req, (), ()>::BeginRequest { context }),
    {
        self.endpoint_consumer.open(GrpcMode::ClientStreaming, context, None)
    }
}

/// Makes the endpoint of an input and attaches it.
pub fn make_grpc_server_streaming_endpoint_consumer<T, R, E>(
    input: &mut InputStream<T, R, E, i32>,
    connector_name: &str,
    endpoint_name: &str,
    environment: &mut RuntimeEnvironment,
    set_up: SetUp,
) -> (result: RuntimeResult<ServerStreamingEndpointConsumer>)
    ensures
        ({
            let id = old(input).spec_stream().spec_id();
            let endpoint_id = input_endpoint(old(environment)@.config, id);
            let has_result = old(input).spec_result_source() is Some;
            &&& match result {
                Ok(consumer) => {
                    &&& set_up.failure() is None
                    &&& consumer.endpoint_consumer.base.is_new(
                        id,
                        connector_name@,
                        endpoint_name@,
                        "grpc"@,
                    )
                },
                Err(error) => set_up.failure() == Some(error@),
            }
            &&& final(environment)@ == set_up.graph(
                old(environment)@,
                id,
                endpoint_id,
                has_result,
            )
            &&& final(input).spec_result_consumer() == set_up.results(
                old(input).spec_result_consumer(),
                endpoint_id,
                has_result,
                false,
            )
        }),
        final(input).spec_stream() == old(input).spec_stream(),
        final(input).spec_error_stream() == old(input).spec_error_stream(),
        final(input).spec_result_source() == old(input).spec_result_source(),
{
    match GrpcTypedEndpointConsumer::make(
        input,
        connector_name,
        endpoint_name,
        environment,
        set_up,
    ) {
        Ok(endpoint_consumer) => Ok(ServerStreamingEndpointConsumer { endpoint_consumer }),
        Err(error) => Err(error),
    }
}

impl ServerStreamingEndpointConsumer {
    /// Opens a request of the service method.
    pub fn handle<Req, Res, X>(
        &self,
        context: MessageContext,
        request: Req,
    ) -> (opened: (GrpcRequest<Req, Res, X>, Vec<Action<Req, (), ()>>))
        ensures
            opened.0 == (GrpcRequest::<Req, Res, X> {
                mode: GrpcMode::ServerStreaming,
                phase: GrpcPhase::Beginning { request: Some(request) },
            }),
            opened.1@ == one(Action::<Req, (), ()>::BeginRequest { context }),
    {
        self.endpoint_consumer.open(GrpcMode::ServerStreaming, context, Some(request))
    }
}

} // verus!
