//! Sinks that hand messages to code of the same process.
pub mod custom;

pub use custom::{make_custom_endpoint_consumer, CustomEndpointConsumer};
