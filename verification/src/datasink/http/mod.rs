//! HTTP sinks.
pub mod body;
pub mod client;
pub mod consumer;
pub mod message;

pub use body::{CloseBody, ReadOutcome, ReadStep, ResponseBody};
pub use client::{PreparedRequest, ReqwestClient};
pub use consumer::{
    make_endpoint_consumer, EndpointConsumer, HttpEvent, HttpPhase, HttpRequest, StreamContext,
    IMPLEMENTATION,
};
pub use message::{Request, Requester, Response};
