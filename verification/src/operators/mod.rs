//! The operators that a graph is made of.
pub mod case;
pub mod delay;
pub mod error;
pub mod filter;
pub mod flatmap;
pub mod flatmapiterable;
pub mod input;
pub mod join;
pub mod keyby;
pub mod link;
pub mod map;
pub mod merge;
pub mod multijoin;
pub mod process;
pub mod sink;
pub mod split;
pub mod substream;

pub use case::{
    BuildSwitchFunction, CaseBranches, CaseStream, TypedCaseStream, When, WhenStream,
};
pub use delay::{DelayFunction, DelayStep, DelayStream, DelayedMessage};
pub use error::ErrorStream;
pub use filter::{FilterFunction, FilterStream};
pub use flatmap::{FlatMapFunction, FlatMapStream};
pub use flatmapiterable::{FlatMapIterableStream, StreamIterable};
pub use input::InputStream;
pub use join::{JoinEntry, JoinFunction, JoinLink, JoinStream, Joined};
pub use keyby::{KeyByFunction, KeyByStream};
pub use link::LinkStream;
pub use map::{MapFunction, MapStream};
pub use merge::MergeStream;
pub use multijoin::{
    downcast_join_values, JoinValue, MultiJoinFunction, MultiJoinLinkStream, MultiJoinStream,
};
pub use process::{ProcessEmission, ProcessFunction, ProcessStream, Processed};
pub use sink::{SinkStream, SinkStreamWithResult};
pub use split::{SplitOutputs, SplitStream};
pub use substream::{CallAction, CallEvent, CallPhase, SubStream, SubStreamCall};
