//! Which spans requests open.
use vstd::prelude::*;

use crate::runtime::common::MessageContext;
use crate::runtime::environment::RuntimeEnvironment;

verus! {

/// The span of a request, by its transport and its direction, or of an operator.
#[derive(Clone, Copy, Debug, PartialEq, Eq, Structural)]
pub enum SpanKind {
    GrpcOutput,
    HttpOutput,
    KafkaOutput,
    LocalOutput,
    GrpcInput,
    HttpInput,
    KafkaInput,
    LocalInput,
    CaseOperator,
    DelayOperator,
    FilterOperator,
    FlatMapOperator,
    FlatMapIterableOperator,
    InputOperator,
    JoinOperator,
    KeyByOperator,
    LinkOperator,
    MapOperator,
    MergeOperator,
    ProcessOperator,
    SinkOperator,
    SplitOperator,
    SubStreamOperator,
}

/// The name of a span.
pub open spec fn span_text(kind: SpanKind) -> Seq<char> {
    match kind {
        SpanKind::GrpcOutput => "grpc.output"@,
        SpanKind::HttpOutput => "http.output"@,
        SpanKind::KafkaOutput => "kafka.output"@,
        SpanKind::LocalOutput => "local.output"@,
        SpanKind::GrpcInput => "grpc.input"@,
        SpanKind::HttpInput => "http.input"@,
        SpanKind::KafkaInput => "kafka.input"@,
        SpanKind::LocalInput => "local.input"@,
        SpanKind::CaseOperator => "stream.case"@,
        SpanKind::DelayOperator => "stream.delay"@,
        SpanKind::FilterOperator => "stream.filter"@,
        SpanKind::FlatMapOperator => "stream.flatmap"@,
        SpanKind::FlatMapIterableOperator => "stream.flatmap_iterable"@,
        SpanKind::InputOperator => "stream.input"@,
        SpanKind::JoinOperator => "stream.join"@,
        SpanKind::KeyByOperator => "stream.keyby"@,
        SpanKind::LinkOperator => "stream.link"@,
        SpanKind::MapOperator => "stream.map"@,
        SpanKind::MergeOperator => "stream.merge"@,
        SpanKind::ProcessOperator => "stream.process"@,
        SpanKind::SinkOperator => "stream.sink"@,
        SpanKind::SplitOperator => "stream.split"@,
        SpanKind::SubStreamOperator => "stream.substream"@,
    }
}

/// Whether a span is opened only where a tracing engine is installed.
pub open spec fn needs_engine(kind: SpanKind) -> bool {
    match kind {
        SpanKind::KafkaOutput => false,
        SpanKind::LocalOutput => false,
        SpanKind::GrpcInput => false,
        SpanKind::HttpInput => false,
        SpanKind::KafkaInput => false,
        SpanKind::LocalInput => false,
        _ => true,
    }
}

/// The labels that a stream has in traces: its name, and those of the pipeline and the
/// component that it belongs to.
pub struct TracingLabels {
    pub stream: String,
    pub pipeline: String,
    pub component: String,
}

/// A span that the driver is asked to open. `method` and `path` are those of an HTTP
/// request that came in.
pub struct SpanRequest {
    pub name: &'static str,
    pub stream: String,
    pub pipeline: Option<String>,
    pub component: Option<String>,
    pub endpoint: String,
    pub method: Option<String>,
    pub path: Option<String>,
}

/// Whether a span names the pipeline and the component.
pub open spec fn names_component(kind: SpanKind) -> bool {
    kind == SpanKind::GrpcOutput || kind == SpanKind::HttpOutput
}

/// Whether a span names the stream in place of an endpoint.
pub open spec fn stream_as_endpoint(kind: SpanKind) -> bool {
    match kind {
        SpanKind::GrpcOutput => false,
        SpanKind::HttpOutput => false,
        SpanKind::KafkaOutput => false,
        SpanKind::GrpcInput => false,
        SpanKind::HttpInput => false,
        SpanKind::KafkaInput => false,
        _ => true,
    }
}

/// What a span of a kind says of where it was opened.
pub open spec fn span_fields(
    request: SpanRequest,
    kind: SpanKind,
    labels: TracingLabels,
    endpoint: Seq<char>,
) -> bool {
    &&& request.name@ == span_text(kind)
    &&& request.stream@ == labels.stream@
    &&& match request.pipeline {
        Some(pipeline) => names_component(kind) && pipeline@ == labels.pipeline@,
        None => !names_component(kind),
    }
    &&& match request.component {
        Some(component) => names_component(kind) && component@ == labels.component@,
        None => !names_component(kind),
    }
    &&& request.endpoint@ == (if stream_as_endpoint(kind) {
        labels.stream@
    } else {
        endpoint
    })
}

/// Whether a message opens a span of a kind: it has to ask for tracing, and some kinds
/// need an engine besides.
pub open spec fn opens_span(kind: SpanKind, context: MessageContext, tracing: bool) -> bool {
    context.spec_sampled() && (needs_engine(kind) ==> tracing)
}

/// Asks for the span of a request or an operator.
pub fn start_span(
    kind: SpanKind,
    context: &MessageContext,
    environment: &RuntimeEnvironment,
    labels: &TracingLabels,
    endpoint: &str,
) -> (span: Option<SpanRequest>)
    ensures
        match span {
            Some(request) => {
                &&& opens_span(kind, *context, environment@.tracing)
                &&& span_fields(request, kind, *labels, endpoint@)
                &&& request.method is None
                &&& request.path is None
            },
            None => !opens_span(kind, *context, environment@.tracing),
        },
{
    let (name, engine) = match kind {
        SpanKind::GrpcOutput => ("grpc.output", true),
        SpanKind::HttpOutput => ("http.output", true),
        SpanKind::KafkaOutput => ("kafka.output", false),
        SpanKind::LocalOutput => ("local.output", false),
        SpanKind::GrpcInput => ("grpc.input", false),
        SpanKind::HttpInput => ("http.input", false),
        SpanKind::KafkaInput => ("kafka.input", false),
        SpanKind::LocalInput => ("local.input", false),
        SpanKind::CaseOperator => ("stream.case", true),
        SpanKind::DelayOperator => ("stream.delay", true),
        SpanKind::FilterOperator => ("stream.filter", true),
        SpanKind::FlatMapOperator => ("stream.flatmap", true),
        SpanKind::FlatMapIterableOperator => ("stream.flatmap_iterable", true),
        SpanKind::InputOperator => ("stream.input", true),
        SpanKind::JoinOperator => ("stream.join", true),
        SpanKind::KeyByOperator => ("stream.keyby", true),
        SpanKind::LinkOperator => ("stream.link", true),
        SpanKind::MapOperator => ("stream.map", true),
        SpanKind::MergeOperator => ("stream.merge", true),
        SpanKind::ProcessOperator => ("stream.process", true),
        SpanKind::SinkOperator => ("stream.sink", true),
        SpanKind::SplitOperator => ("stream.split", true),
        SpanKind::SubStreamOperator => ("stream.substream", true),
    };
    if !context.sampling_enabled() || (engine && !environment.tracing_enabled()) {
        return None;
    }
    let (pipeline, component) = match kind {
        SpanKind::GrpcOutput | SpanKind::HttpOutput => (
            Some(labels.pipeline.clone()),
            Some(labels.component.clone()),
        ),
        _ => (None, None),
    };
    let endpoint = match kind {
        SpanKind::GrpcOutput | SpanKind::HttpOutput | SpanKind::KafkaOutput => endpoint.to_owned(),
        SpanKind::GrpcInput | SpanKind::HttpInput | SpanKind::KafkaInput => endpoint.to_owned(),
        _ => labels.stream.clone(),
    };
    Some(
        SpanRequest {
            name,
            stream: labels.stream.clone(),
            pipeline,
            component,
            endpoint,
            method: None,
            path: None,
        },
    )
}

/// Asks for the span of an HTTP request that came in.
pub fn start_http_span(
    context: &MessageContext,
    environment: &RuntimeEnvironment,
    labels: &TracingLabels,
    endpoint: &str,
    method: &str,
    path: &str,
) -> (span: Option<SpanRequest>)
    ensures
        match span {
            Some(request) => {
                &&& context.spec_sampled()
                &&& span_fields(request, SpanKind::HttpInput, *labels, endpoint@)
                &&& request.method matches Some(text) && text@ == method@
                &&& request.path matches Some(text) && text@ == path@
            },
            None => !context.spec_sampled(),
        },
{
    match start_span(SpanKind::HttpInput, context, environment, labels, endpoint) {
        Some(request) => Some(
            SpanRequest {
                method: Some(method.to_owned()),
                path: Some(path.to_owned()),
                ..request
            },
        ),
        None => None,
    }
}

/// A message that does not ask for tracing opens no span, whatever it passes through and
/// whether or not an engine is installed.
pub proof fn law_no_span_without_sampling(kind: SpanKind, context: MessageContext, tracing: bool)
    requires
        !context.spec_sampled(),
    ensures
        !opens_span(kind, context, tracing),
{
}

/// Only requests that come in, and those that go out to Kafka or to the process itself, open
/// spans without an engine; with one, every message that asks for tracing opens a span
/// wherever it passes.
pub proof fn law_traced_messages_open_spans(kind: SpanKind, context: MessageContext)
    requires
        context.spec_sampled(),
    ensures
        opens_span(kind, context, true),
        opens_span(kind, context, false) <==> kind == SpanKind::KafkaOutput || kind
            == SpanKind::LocalOutput || kind == SpanKind::GrpcInput || kind == SpanKind::HttpInput
            || kind == SpanKind::KafkaInput || kind == SpanKind::LocalInput,
{
}

/// A span names its stream; it names the pipeline and the component just for calls over gRPC
/// and HTTP, and the endpoint of a transport, or the stream once more where there is none.
pub proof fn law_spans_tell_where_they_were_opened(
    request: SpanRequest,
    kind: SpanKind,
    labels: TracingLabels,
    endpoint: Seq<char>,
)
    requires
        span_fields(request, kind, labels, endpoint),
    ensures
        request.stream@ == labels.stream@,
        request.pipeline is Some <==> kind == SpanKind::GrpcOutput || kind == SpanKind::HttpOutput,
        request.component is Some <==> kind == SpanKind::GrpcOutput || kind == SpanKind::HttpOutput,
        request.pipeline matches Some(text) ==> text@ == labels.pipeline@,
        request.component matches Some(text) ==> text@ == labels.component@,
        kind == SpanKind::GrpcOutput || kind == SpanKind::HttpOutput || kind
            == SpanKind::KafkaOutput || kind == SpanKind::GrpcInput || kind == SpanKind::HttpInput
            || kind == SpanKind::KafkaInput ==> request.endpoint@ == endpoint,
        kind == SpanKind::LocalOutput || kind == SpanKind::LocalInput ==> request.endpoint@
            == labels.stream@,
        request.name@ == span_text(kind),
{
}

/// A span goes by its transport and its direction, or by its operator, and kinds of spans that
/// differ go by different names.
pub proof fn law_spans_are_named_by_what_opens_them(kind: SpanKind)
    ensures
        match kind {
            SpanKind::GrpcOutput => span_text(kind) == "grpc.output"@,
            SpanKind::HttpOutput => span_text(kind) == "http.output"@,
            SpanKind::KafkaOutput => span_text(kind) == "kafka.output"@,
            SpanKind::LocalOutput => span_text(kind) == "local.output"@,
            SpanKind::GrpcInput => span_text(kind) == "grpc.input"@,
            SpanKind::HttpInput => span_text(kind) == "http.input"@,
            SpanKind::KafkaInput => span_text(kind) == "kafka.input"@,
            SpanKind::LocalInput => span_text(kind) == "local.input"@,
            SpanKind::CaseOperator => span_text(kind) == "stream.case"@,
            SpanKind::DelayOperator => span_text(kind) == "stream.delay"@,
            SpanKind::FilterOperator => span_text(kind) == "stream.filter"@,
            SpanKind::FlatMapOperator => span_text(kind) == "stream.flatmap"@,
            SpanKind::FlatMapIterableOperator => span_text(kind) == "stream.flatmap_iterable"@,
            SpanKind::InputOperator => span_text(kind) == "stream.input"@,
            SpanKind::JoinOperator => span_text(kind) == "stream.join"@,
            SpanKind::KeyByOperator => span_text(kind) == "stream.keyby"@,
            SpanKind::LinkOperator => span_text(kind) == "stream.link"@,
            SpanKind::MapOperator => span_text(kind) == "stream.map"@,
            SpanKind::MergeOperator => span_text(kind) == "stream.merge"@,
            SpanKind::ProcessOperator => span_text(kind) == "stream.process"@,
            SpanKind::SinkOperator => span_text(kind) == "stream.sink"@,
            SpanKind::SplitOperator => span_text(kind) == "stream.split"@,
            SpanKind::SubStreamOperator => span_text(kind) == "stream.substream"@,
        },
{
}

} // verus!
