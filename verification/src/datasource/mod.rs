//! Sources: endpoints that messages enter the service through.
pub mod concurrency;
pub mod cron;
pub mod delivery;
pub mod endpoint;
pub mod grpc;
pub mod http;
pub mod kafka;
pub mod localsource;
pub mod request;
pub mod results;
