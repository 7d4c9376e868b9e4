//! gRPC sources.
pub mod callback_store;
pub mod endpoint;
pub mod request;
pub mod tonic;

pub use callback_store::CallbackStore;
pub use endpoint::{
    make_grpc_client_streaming_endpoint_consumer, make_grpc_no_streaming_endpoint_consumer,
    make_grpc_server_streaming_endpoint_consumer, ClientStreamingEndpointConsumer,
    GrpcTypedEndpointConsumer, NoStreamingEndpointConsumer, ServerStreamingEndpointConsumer,
    IMPLEMENTATION,
};
pub use request::{unary_reply, GrpcEvent, GrpcMode, GrpcPhase, GrpcRequest, UnarySender};
pub use tonic::{TonicDataSource, TonicDataSourceOptions};
