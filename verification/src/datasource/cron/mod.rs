//! Cron sources.
pub mod consumer;
pub mod datasource;
pub mod job;
pub mod schedule;

pub use consumer::{
    make_croner_endpoint_consumer, make_trigger, CronEndpointConsumer, ScheduleBackend,
    ScheduleEndpointFunction, ScheduleTrigger,
};
pub use datasource::CronDataSource;
pub use job::{CronJob, Dispatch};
pub use schedule::{Schedule, Showings};
