//! gRPC sinks.
pub mod bidistreaming;
pub mod clientstreaming;
pub mod endpoint;
pub mod nostreaming;
pub mod serverstreaming;
pub mod session;
pub mod tonic;

pub use bidistreaming::{
    make_grpc_bidi_streaming_endpoint_consumer, BidiStreamingEndpointConsumer, BidiStreamingEvent,
    BidiStreamingPhase, BidiStreamingSession,
};
pub use clientstreaming::{
    make_grpc_client_streaming_endpoint_consumer, ClientStreamingEndpointConsumer,
    ClientStreamingEvent, ClientStreamingPhase, ClientStreamingSession,
};
pub use endpoint::{
    start_output_span, EndpointMetrics, RequestSender, ResultContext, Span, SpanEvent,
    IMPLEMENTATION,
};
pub use nostreaming::{
    make_grpc_no_streaming_endpoint_consumer, NoStreamingEndpointConsumer, NoStreamingEvent,
    NoStreamingPhase, NoStreamingRequest,
};
pub use serverstreaming::{
    make_grpc_server_streaming_endpoint_consumer, ServerStreamingEndpointConsumer,
    ServerStreamingEvent, ServerStreamingPhase, ServerStreamingRequest,
};
pub use session::Route;
pub use tonic::{ConnectPlan, TonicDataSink};
