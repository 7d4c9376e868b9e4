//! Kafka sources.
pub mod consumer;
pub mod datasource;
pub mod message;

pub use consumer::{
    make_rdkafka_kafka_endpoint_consumer, KafkaEndpointLifecycle, RdkafkaKafkaTypedEndpointConsumer,
};
pub use datasource::{endpoint_client, make_client_config, RdkafkaKafkaDataSource, StartNext};
pub use message::{loop_step, ConsumerMessage, Lanes, LoopAction, LoopEvent, OffsetMark};
