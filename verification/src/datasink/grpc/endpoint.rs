//! What the four kinds of gRPC sink share.
use vstd::prelude::*;

use crate::operators::sink::{sink_endpoint, SinkStreamWithResult};
use crate::runtime::common::MessageContext;
use crate::runtime::config::{RuntimeConfig, RuntimeDataConnectorConfig, RuntimeEndpointConfig};
use crate::runtime::environment::{EnvironmentView, RuntimeEnvironment};
use crate::runtime::error::{Fault, HandlerError, HandlerResult, RuntimeErrorView, RuntimeResult};
use crate::runtime::lookup::{
    connector_missing_text, connector_of, endpoint_missing_text, endpoint_of, Side,
};
use crate::runtime::metrics::{endpoint_scope, is_endpoint_scope, MetricScope};
use crate::runtime::telemetry::{start_span, SpanKind, SpanRequest, TracingLabels};

verus! {

pub const IMPLEMENTATION: &'static str = "rust/tonic";

/// Asks for the span of an outgoing request. None is asked for unless a tracing
/// engine is installed and the message asks for tracing; the context goes on
/// unchanged.
pub fn start_output_span(
    context: MessageContext,
    environment: &RuntimeEnvironment,
    labels: &TracingLabels,
    endpoint: &str,
) -> (started: (MessageContext, Option<SpanRequest>))
    ensures
        started.0 == context,
        match started.1 {
            Some(span) => {
                &&& environment@.tracing
                &&& context.spec_sampled()
                &&& span.name@ == "grpc.output"@
                &&& span.stream@ == labels.stream@
                &&& span.pipeline matches Some(pipeline) && pipeline@ == labels.pipeline@
                &&& span.component matches Some(component) && component@ == labels.component@
                &&& span.endpoint@ == endpoint@
                &&& span.method is None
                &&& span.path is None
            },
            None => !environment@.tracing || !context.spec_sampled(),
        },
{
    let span = start_span(SpanKind::GrpcOutput, &context, environment, labels, endpoint);
    (context, span)
}

/// A span as the library knows it: whether anything listens to it.
#[derive(Clone, Copy, Debug, PartialEq, Eq, Structural)]
pub struct Span {
    pub disabled: bool,
}

/// An event that the driver writes into the span of a request.
#[derive(Clone, Copy, Debug, PartialEq, Eq, Structural)]
pub enum SpanEvent {
    DoneCalled,
}

/// Lets a handler say that its request is done. It keeps the span of the request
/// only where something listens to it.
pub struct ResultContext {
    done: bool,
    span: Option<Span>,
}

impl ResultContext {
    pub closed spec fn spec_done(&self) -> bool {
        self.done
    }

    pub closed spec fn spec_span(&self) -> Option<Span> {
        self.span
    }

    pub fn with_span(span: Span) -> (result: ResultContext)
        ensures
            !result.spec_done(),
            result.spec_span() == (if span.disabled {
                None
            } else {
                Some(span)
            }),
    {
        ResultContext {
            done: false,
            span: if span.disabled {
                None
            } else {
                Some(span)
            },
        }
    }

    pub fn span(&self) -> (span: Option<Span>)
        ensures
            span == self.spec_span(),
    {
        self.span
    }

    /// Marks the request as done. Every call asks for an event in the span, where
    /// there is one.
    pub fn done(&mut self) -> (event: Option<SpanEvent>)
        ensures
            final(self).spec_done(),
            final(self).spec_span() == old(self).spec_span(),
            event == (if old(self).spec_span() is Some {
                Some(SpanEvent::DoneCalled)
            } else {
                None
            }),
    {
        self.done = true;
        if self.span.is_some() {
            Some(SpanEvent::DoneCalled)
        } else {
            None
        }
    }

    pub fn is_done(&self) -> (done: bool)
        ensures
            done == self.spec_done(),
    {
        self.done
    }
}

impl Default for ResultContext {
    fn default() -> (result: ResultContext)
        ensures
            !result.spec_done(),
            result.spec_span() is None,
    {
        ResultContext { done: false, span: None }
    }
}

/// Takes the one request that a handler sends for a message. A later request
/// takes the place of an earlier one.
pub struct RequestSender<Req> {
    request: Option<Req>,
}

impl<Req> RequestSender<Req> {
    pub closed spec fn spec_request(&self) -> Option<Req> {
        self.request
    }

    pub fn new() -> (sender: RequestSender<Req>)
        ensures
            sender.spec_request() is None,
    {
        RequestSender { request: None }
    }

    pub fn send<X>(&mut self, request: Req) -> (result: HandlerResult<(), X>)
        ensures
            result is Ok,
            final(self).spec_request() == Some(request),
    {
        self.request = Some(request);
        Ok(())
    }

    /// The request, or the fault of a handler that sent none.
    pub fn take<X>(&mut self) -> (result: HandlerResult<Req, X>)
        ensures
            final(self).spec_request() is None,
            result == (match old(self).spec_request() {
                Some(request) => Ok(request),
                None => Err(HandlerError::<X>::Fault(Fault::GrpcRequestNotSent)),
            }),
    {
        match self.request.take() {
            Some(request) => Ok(request),
            None => Err(HandlerError::Fault(Fault::GrpcRequestNotSent)),
        }
    }
}

impl<Req> Default for RequestSender<Req> {
    fn default() -> (sender: RequestSender<Req>)
        ensures
            sender.spec_request() is None,
    {
        RequestSender::new()
    }
}

/// The metrics of a gRPC sink endpoint. Durations are measured only where a
/// metrics engine is installed.
pub struct EndpointMetrics {
    pub enabled: bool,
    pub scope: MetricScope,
    pub rpc_method: String,
}

/// The endpoint and the connector of a sink stream.
pub open spec fn sink_configs(config: RuntimeConfig, id: i32) -> (
    Option<RuntimeEndpointConfig>,
    Option<RuntimeDataConnectorConfig>,
) {
    let endpoint = config.spec_endpoint(sink_endpoint(config, id));
    (
        endpoint,
        match endpoint {
            Some(found) => config.spec_data_connector(found.spec_data_connector_id()),
            None => None,
        },
    )
}

/// What looking up the endpoint and then the connector of a sink stream fails
/// with, if it fails.
pub open spec fn sink_lookup_error(config: RuntimeConfig, id: i32, name: Seq<char>) -> Option<
    Seq<char>,
> {
    match sink_configs(config, id) {
        (None, _) => Some(endpoint_missing_text(Side::Sink, sink_endpoint(config, id), name)),
        (Some(endpoint), None) => Some(
            connector_missing_text(endpoint.spec_data_connector_id(), endpoint.spec_name()@),
        ),
        _ => None,
    }
}

/// Why the metrics of a sink stream's endpoint cannot be had, if they cannot: its
/// configuration is looked up first, then its instruments are set up.
pub open spec fn sink_metrics_error(
    config: RuntimeConfig,
    id: i32,
    name: Seq<char>,
    instruments: RuntimeResult<()>,
) -> Option<RuntimeErrorView> {
    match (sink_lookup_error(config, id, name), instruments) {
        (Some(text), _) => Some(RuntimeErrorView::InvalidConfiguration(text)),
        (None, Err(error)) => Some(error@),
        (None, Ok(_)) => None,
    }
}

/// The metrics are those of the endpoint that sink stream `id` is configured with.
pub open spec fn is_sink_metrics(metrics: EndpointMetrics, graph: EnvironmentView, id: i32) -> bool {
    let configs = sink_configs(graph.config, id);
    &&& metrics.enabled == graph.metrics
    &&& metrics.rpc_method@ == configs.0->0.spec_name()@
    &&& is_endpoint_scope(
        metrics.scope,
        Side::Sink,
        configs.1->0.spec_name()@,
        configs.0->0.spec_name()@,
        Some("grpc"@),
    )
}

impl EndpointMetrics {
    /// The metrics of the endpoint that `stream` is configured with. `instruments` is
    /// what setting up its instruments came to.
    pub fn new<T, R, E, C>(
        stream: &SinkStreamWithResult<T, R, E, C>,
        environment: &RuntimeEnvironment,
        instruments: RuntimeResult<()>,
    ) -> (result: RuntimeResult<EndpointMetrics>)
        requires
            stream.spec_result_stream().belongs(environment@),
        ensures
            ({
                let id = stream.spec_result_stream().spec_id();
                let name = environment@.nodes[stream.spec_result_stream().spec_node()].name;
                let failure = sink_metrics_error(environment@.config, id, name, instruments);
                match result {
                    Ok(metrics) => failure is None && is_sink_metrics(metrics, environment@, id),
                    Err(error) => failure == Some(error@),
                }
            }),
    {
        let config = environment.runtime_config();
        let name = stream.name(environment);
        let endpoint_id: i32 = stream.endpoint_id(environment);
        let endpoint = match endpoint_of(config, Side::Sink, endpoint_id, name.as_str()) {
            Ok(endpoint) => endpoint,
            Err(error) => return Err(error),
        };
        let connector = match connector_of(
            config,
            endpoint.data_connector_id(),
            endpoint.name().as_str(),
        ) {
            Ok(connector) => connector,
            Err(error) => return Err(error),
        };
        match instruments {
            Ok(_) => {},
            Err(error) => return Err(error),
        }
        let scope = endpoint_scope(
            Side::Sink,
            connector.name().as_str(),
            endpoint.name().as_str(),
            Some("grpc"),
        );
        Ok(
            EndpointMetrics {
                enabled: environment.metrics_enabled(),
                scope,
                rpc_method: endpoint.name().clone(),
            },
        )
    }

    pub fn rpc_method(&self) -> (method: &str)
        ensures
            method@ == self.rpc_method@,
    {
        self.rpc_method.as_str()
    }
}

/// A sink is set up if and only if its endpoint and the connector of that endpoint are
/// configured and its instruments are there; a missing endpoint is what is told first, then a
/// missing connector.
pub proof fn law_sinks_need_endpoint_and_connector(
    config: RuntimeConfig,
    id: i32,
    name: Seq<char>,
    instruments: RuntimeResult<()>,
)
    ensures
        ({
            let endpoint = config.spec_endpoint(sink_endpoint(config, id));
            let connector = config.spec_data_connector(endpoint->0.spec_data_connector_id());
            let error = sink_metrics_error(config, id, name, instruments);
            &&& error is None <==> endpoint is Some && connector is Some && instruments is Ok
            &&& endpoint is None ==> error == Some(
                RuntimeErrorView::InvalidConfiguration(
                    endpoint_missing_text(Side::Sink, sink_endpoint(config, id), name),
                ),
            )
            &&& endpoint is Some && connector is None ==> error == Some(
                RuntimeErrorView::InvalidConfiguration(
                    connector_missing_text(
                        endpoint->0.spec_data_connector_id(),
                        endpoint->0.spec_name()@,
                    ),
                ),
            )
            &&& endpoint is Some && connector is Some ==> (instruments matches Err(failure)
                ==> error == Some(failure@))
            &&& sink_configs(config, id).0 == endpoint
            &&& endpoint is Some ==> sink_configs(config, id).1 == connector
        }),
{
}

/// The metrics of a sink are kept if and only if the service keeps metrics, under the names of
/// its connector and its endpoint, and its calls under that of the endpoint.
pub proof fn law_sink_metrics_are_named_by_the_endpoint(
    metrics: EndpointMetrics,
    graph: EnvironmentView,
    id: i32,
)
    requires
        is_sink_metrics(metrics, graph, id),
        graph.config.spec_endpoint(sink_endpoint(graph.config, id)) is Some,
    ensures
        ({
            let endpoint = graph.config.spec_endpoint(sink_endpoint(graph.config, id))->0;
            let connector = graph.config.spec_data_connector(endpoint.spec_data_connector_id());
            &&& metrics.enabled == graph.metrics
            &&& metrics.rpc_method@ == endpoint.spec_name()@
            &&& metrics.scope.labels@[0].1@ == connector->0.spec_name()@
            &&& metrics.scope.labels@[1].1@ == endpoint.spec_name()@
            &&& metrics.scope.labels@[2].1@ == "grpc"@
        }),
{
}

} // verus!
