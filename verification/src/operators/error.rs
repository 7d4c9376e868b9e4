//! The error output of an operator.
use vstd::prelude::*;

use crate::runtime::common::{Emission, MessageContext, Payload};
use crate::runtime::config::StreamConfig;
use crate::runtime::environment::{
    configured_name, law_streams_are_added_last, same_but_nodes, EnvironmentView,
    RuntimeEnvironment, SerdeKind,
};
use crate::runtime::stream::Stream;

verus! {

/// The error output that another stream owns. It stands under the negated id of
/// its owner, so that the two never collide while links can still be configured
/// for it.
pub struct ErrorStream<E> {
    stream: Stream<E>,
}

impl<E> Clone for ErrorStream<E> {
    fn clone(&self) -> (copy: ErrorStream<E>)
        ensures
            copy == *self,
    {
        ErrorStream { stream: self.stream }
    }
}

/// The graph once the error output of `owner` was added.
pub open spec fn with_error_stream(graph: EnvironmentView, owner: i32) -> EnvironmentView {
    graph.with_stream((-owner) as i32, owner, configured_name(graph.config, owner), None)
}

impl<E> ErrorStream<E> {
    pub closed spec fn spec_stream(&self) -> Stream<E> {
        self.stream
    }

    /// Adds the error output of `owner`, with a serde of its own.
    pub fn new(owner: &StreamConfig, environment: &mut RuntimeEnvironment) -> (error: ErrorStream<
        E,
    >)
        requires
            owner.id != i32::MIN,
        ensures
            final(environment)@ == with_error_stream(old(environment)@, owner.id),
            error.spec_stream().newest(final(environment)@),
            error.spec_stream().spec_id() == -owner.id,
            owner.id != 0 ==> error.spec_stream().spec_id() != owner.id,
    {
        ErrorStream { stream: Stream::with_ids(-owner.id, owner.id, environment) }
    }

    pub fn stream(&self) -> (stream: &Stream<E>)
        ensures
            *stream == self.spec_stream(),
    {
        &self.stream
    }

    /// Writes an error.
    pub fn emit(&self, context: MessageContext, payload: Payload<E>) -> (emission: Emission<E>)
        ensures
            emission == (Emission { stream: self.spec_stream(), context, payload }),
    {
        self.stream.collector().out_payload(context, payload)
    }
}

/// An error output stands under the opposite of its owner's id, goes by the owner's name, and
/// has a serde of its own.
pub proof fn law_error_streams_mirror_their_owner(graph: EnvironmentView, owner: i32)
    requires
        owner != i32::MIN,
    ensures
        ({
            let grown = with_error_stream(graph, owner);
            &&& grown.nodes.drop_last() == graph.nodes
            &&& grown.nodes.last().id == -owner
            &&& grown.nodes.last().owner == owner
            &&& grown.nodes.last().name == configured_name(graph.config, owner)
            &&& grown.nodes.last().serde == graph.nodes.len()
            &&& grown.nodes.last().kind == SerdeKind::Whole
            &&& grown.nodes.last().link is None
            &&& same_but_nodes(grown, graph)
        }),
{
    law_streams_are_added_last(
        graph,
        (-owner) as i32,
        owner,
        configured_name(graph.config, owner),
        None,
    );
}

} // verus!
