//! Sinks: endpoints that messages leave the service through.
pub mod direct;
pub mod grpc;
pub mod http;
pub mod kafka;
pub mod localsink;
