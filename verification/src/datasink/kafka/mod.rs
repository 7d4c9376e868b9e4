//! Kafka sinks.
pub mod consumer;
pub mod datasink;
pub mod settings;
pub mod start;
pub mod topics;

pub use consumer::{
    make_endpoint_consumer, make_rdkafka_kafka_endpoint_consumer,
    make_rdkafka_kafka_endpoint_consumer_with_partitioner, KafkaRecord, Partitioner,
    RdkafkaKafkaEndpointConsumer, SinkMessage, IMPLEMENTATION,
};
pub use datasink::{
    kafka_sink_configs, EnabledTopic, KafkaEndpointEntry, KafkaEndpointRuntimeState, KafkaState,
    NewTopicPlan, RdkafkaKafkaDataSink,
};
pub use settings::apply_security;
pub use start::{StartPlan, StartStep};
pub use topics::{check_topics, TopicOutcome};
