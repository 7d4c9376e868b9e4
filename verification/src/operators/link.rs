//! Link: a stream whose source is connected after the rest of the graph, so that a
//! graph may have a cycle.
use vstd::prelude::*;

use crate::runtime::common::{Emission, MessageContext, Payload};
use crate::runtime::config::CycleLinkStreamConfig;
use crate::runtime::environment::{
    law_connecting_changes_one_stream, EnvironmentView, RuntimeEnvironment,
};
use crate::runtime::error::{RuntimeError, RuntimeErrorView, RuntimeResult};
use crate::runtime::stream::{attached, Collector, Stream};

verus! {

/// The link. It is created first; its source is set once the stream that closes the
/// cycle exists.
pub struct LinkStream<T> {
    stream: Stream<T>,
    source: Option<Stream<T>>,
}

/// What comes of setting the source of a link. A link has one source: a second one is
/// refused and changes nothing.
pub open spec fn source_set<T, V>(
    before: LinkStream<T>,
    after: LinkStream<T>,
    source: Stream<T>,
    graph: EnvironmentView,
    grown: EnvironmentView,
    result: RuntimeResult<V>,
) -> bool {
    &&& after.spec_stream() == before.spec_stream()
    &&& if before.spec_source() is Some {
        &&& result is Err
        &&& result->Err_0@ == RuntimeErrorView::SourceAlreadySet(
            graph.nodes[before.spec_stream().spec_node()].name,
        )
        &&& after.spec_source() == before.spec_source()
        &&& grown == graph
    } else {
        &&& attached(source, graph, graph, before.spec_stream().spec_id(), grown, result)
        &&& after.spec_source() == (if result is Ok {
            Some(source)
        } else {
            None
        })
    }
}

impl<T> LinkStream<T> {
    pub closed spec fn spec_stream(&self) -> Stream<T> {
        self.stream
    }

    pub closed spec fn spec_source(&self) -> Option<Stream<T>> {
        self.source
    }

    /// Adds a link without a source, with a serde of its own.
    pub fn make(config: &CycleLinkStreamConfig, environment: &mut RuntimeEnvironment) -> (link:
        LinkStream<T>)
        ensures
            final(environment)@ == old(environment)@.with_stream(
                config.stream.id,
                config.stream.id,
                config.stream.name@,
                None,
            ),
            link.spec_stream().newest(final(environment)@),
            link.spec_stream().spec_id() == config.stream.id,
            link.spec_source() is None,
    {
        LinkStream { stream: Stream::new(&config.stream, environment), source: None }
    }

    pub fn stream(&self) -> (stream: &Stream<T>)
        ensures
            *stream == self.spec_stream(),
    {
        &self.stream
    }

    /// Sets the source of the link.
    pub fn set_source(&mut self, source: &Stream<T>, environment: &mut RuntimeEnvironment) -> (
        result: RuntimeResult<()>)
        requires
            old(self).spec_stream().belongs(old(environment)@),
            source.belongs(old(environment)@),
        ensures
            source_set(
                *old(self),
                *final(self),
                *source,
                old(environment)@,
                final(environment)@,
                result,
            ),
    {
        match self.set_source_typed(source, environment) {
            Ok(_) => Ok(()),
            Err(error) => Err(error),
        }
    }

    /// Sets the source of the link and hands back the collector that writes to it.
    pub fn set_source_typed(
        &mut self,
        source: &Stream<T>,
        environment: &mut RuntimeEnvironment,
    ) -> (result: RuntimeResult<Collector<T>>)
        requires
            old(self).spec_stream().belongs(old(environment)@),
            source.belongs(old(environment)@),
        ensures
            source_set(
                *old(self),
                *final(self),
                *source,
                old(environment)@,
                final(environment)@,
                result,
            ),
            result matches Ok(collector) ==> collector.spec_stream() == *source,
    {
        if self.source.is_some() {
            let stream = self.stream.name(environment);
            return Err(RuntimeError::SourceAlreadySet { stream });
        }
        match source.try_set_consumer(environment, self.stream.id()) {
            Ok(_) => {},
            Err(error) => return Err(error),
        }
        self.source = Some(*source);
        Ok(source.collector())
    }

    /// The source, once it is set.
    pub fn source(&self) -> (source: Option<Stream<T>>)
        ensures
            source == self.spec_source(),
    {
        self.source
    }

    /// Writes a message as it is.
    pub fn consume(&self, context: MessageContext, payload: Payload<T>) -> (emission: Emission<T>)
        ensures
            emission == (Emission { stream: self.spec_stream(), context, payload }),
    {
        self.stream.collector().out_payload(context, payload)
    }
}

/// Adds a link before its source exists.
pub fn create<T>(config: &CycleLinkStreamConfig, environment: &mut RuntimeEnvironment) -> (link:
    LinkStream<T>)
    ensures
        final(environment)@ == old(environment)@.with_stream(
            config.stream.id,
            config.stream.id,
            config.stream.name@,
            None,
        ),
        link.spec_stream().newest(final(environment)@),
        link.spec_stream().spec_id() == config.stream.id,
        link.spec_source() is None,
{
    LinkStream::make(config, environment)
}

/// A link has one source: the first one that can be attached stays, a refused one leaves the
/// link without a source, and once there is one every other is refused and changes nothing.
pub proof fn law_link_keeps_its_source<T, V>(
    before: LinkStream<T>,
    after: LinkStream<T>,
    source: Stream<T>,
    graph: EnvironmentView,
    grown: EnvironmentView,
    result: RuntimeResult<V>,
)
    requires
        source_set(before, after, source, graph, grown, result),
        source.belongs(graph),
    ensures
        after.spec_stream() == before.spec_stream(),
        result is Ok <==> before.spec_source() is None && graph.nodes[source.spec_node()].link
            is None,
        result is Ok ==> {
            &&& after.spec_source() == Some(source)
            &&& grown.nodes[source.spec_node()].link matches Some(link) && link.consumer
                == before.spec_stream().spec_id()
        },
        result is Err ==> after.spec_source() == before.spec_source() && grown == graph,
        before.spec_source() is Some ==> result->Err_0@ == RuntimeErrorView::SourceAlreadySet(
            graph.nodes[before.spec_stream().spec_node()].name,
        ),
        before.spec_source() is None && result is Err ==> result->Err_0@
            == RuntimeErrorView::ConsumerAlreadySet(graph.nodes[source.spec_node()].name),
{
    law_connecting_changes_one_stream(
        graph,
        source.spec_node(),
        before.spec_stream().spec_id(),
    );
}

} // verus!
