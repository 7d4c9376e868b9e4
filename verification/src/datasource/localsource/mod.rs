//! Sources that take messages from code of the same process.
pub mod custom;

pub use custom::{
    make_custom_endpoint_consumer, CustomDataSource, CustomEndpointConsumer, StopProducer,
};
