//! What operators, sources and sinks share.
pub mod common;
pub mod config;
pub mod datasink;
pub mod datastruct;
pub mod environment;
pub mod error;
pub mod lifecycle;
pub mod lookup;
pub mod metrics;
pub mod request;
pub mod store;
pub mod stream;
pub mod string_map;
pub mod telemetry;
pub mod text;
