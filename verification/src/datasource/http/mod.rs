//! HTTP sources.
pub mod consumer;
pub mod data;

pub use consumer::{
    make_endpoint_consumer, AxumDataSource, EndpointConsumer, Preliminary, IMPLEMENTATION,
};
pub use data::{request_context, request_metadata, HandlerData, ResponseData};
