//! Typed handles to the streams of a graph.
use std::marker::PhantomData;

use vstd::prelude::*;

use crate::runtime::common::{Emission, MessageContext, Payload};
use crate::runtime::config::StreamConfig;
use crate::runtime::datastruct::KeyValue;
use crate::runtime::environment::{
    configured_name, law_connecting_changes_one_stream, EnvironmentView, Link, RuntimeEnvironment,
    SerdeKind,
};
use crate::runtime::error::{RuntimeError, RuntimeErrorView, RuntimeResult};

verus! {

/// A handle to a stream that carries values of `T`.
pub struct Stream<T> {
    node: usize,
    id: i32,
    carries: PhantomData<T>,
}

impl<T> Clone for Stream<T> {
    fn clone(&self) -> (copy: Stream<T>)
        ensures
            copy == *self,
    {
        *self
    }
}

impl<T> Copy for Stream<T> {

}

impl<T> Stream<T> {
    pub closed spec fn spec_node(&self) -> int {
        self.node as int
    }

    pub closed spec fn spec_id(&self) -> i32 {
        self.id
    }

    /// Whether the handle belongs to the graph.
    pub open spec fn belongs(&self, graph: EnvironmentView) -> bool {
        &&& 0 <= self.spec_node() < graph.nodes.len()
        &&& graph.nodes[self.spec_node()].id == self.spec_id()
    }

    /// Whether the handle is that of the last stream added to the graph.
    pub open spec fn newest(&self, graph: EnvironmentView) -> bool {
        &&& self.belongs(graph)
        &&& self.spec_node() == graph.nodes.len() - 1
    }

    /// Adds a stream with a serde of its own.
    pub fn new(config: &StreamConfig, environment: &mut RuntimeEnvironment) -> (stream: Stream<T>)
        ensures
            final(environment)@ == old(environment)@.with_stream(
                config.id,
                config.id,
                config.name@,
                None,
            ),
            stream.newest(final(environment)@),
            stream.spec_id() == config.id,
    {
        let node: usize = environment.add_node(config.id, config.id, config.name.clone(), None);
        Stream { node, id: config.id, carries: PhantomData }
    }

    /// Adds a stream that uses the serde `serde`.
    pub fn derived(
        config: &StreamConfig,
        environment: &mut RuntimeEnvironment,
        serde: usize,
    ) -> (stream: Stream<T>)
        ensures
            final(environment)@ == old(environment)@.with_stream(
                config.id,
                config.id,
                config.name@,
                Some(serde as int),
            ),
            stream.newest(final(environment)@),
            stream.spec_id() == config.id,
    {
        Stream::derived_with_name(config, environment, config.name.clone(), serde)
    }

    /// Adds a stream that uses the serde `serde`, under another name.
    pub fn derived_with_name(
        config: &StreamConfig,
        environment: &mut RuntimeEnvironment,
        name: String,
        serde: usize,
    ) -> (stream: Stream<T>)
        ensures
            final(environment)@ == old(environment)@.with_stream(
                config.id,
                config.id,
                name@,
                Some(serde as int),
            ),
            stream.newest(final(environment)@),
            stream.spec_id() == config.id,
    {
        let node: usize = environment.add_node(config.id, config.id, name, Some(serde));
        Stream { node, id: config.id, carries: PhantomData }
    }

    /// Adds a stream that stands under an id other than that of its owner, whose
    /// name it takes. It has a serde of its own.
    pub fn with_ids(id: i32, owner: i32, environment: &mut RuntimeEnvironment) -> (stream: Stream<
        T,
    >)
        ensures
            final(environment)@ == old(environment)@.with_stream(
                id,
                owner,
                configured_name(old(environment)@.config, owner),
                None,
            ),
            stream.newest(final(environment)@),
            stream.spec_id() == id,
    {
        let name = environment.stream_name(owner);
        let node: usize = environment.add_node(id, owner, name, None);
        Stream { node, id, carries: PhantomData }
    }

    pub fn id(&self) -> (id: i32)
        ensures
            id == self.spec_id(),
    {
        self.id
    }

    pub fn name(&self, environment: &RuntimeEnvironment) -> (name: String)
        requires
            self.belongs(environment@),
        ensures
            name@ == environment@.nodes[self.spec_node()].name,
    {
        environment.node(self.node).name.clone()
    }

    pub fn get_serde(&self, environment: &RuntimeEnvironment) -> (serde: usize)
        requires
            self.belongs(environment@),
        ensures
            serde == environment@.nodes[self.spec_node()].serde,
    {
        environment.node(self.node).serde
    }

    /// What the serde of the stream is made of.
    pub fn serde_kind(&self, environment: &RuntimeEnvironment) -> (kind: SerdeKind)
        requires
            self.belongs(environment@),
        ensures
            kind == environment@.nodes[self.spec_node()].kind,
    {
        environment.node(self.node).kind
    }

    /// Where the stream hands its messages, once that is settled.
    pub fn link_collector(&self, environment: &RuntimeEnvironment) -> (link: Option<Link>)
        requires
            self.belongs(environment@),
        ensures
            link == environment@.nodes[self.spec_node()].link,
    {
        environment.node(self.node).link
    }

    /// Lets the stream hand its messages to `consumer`. A stream has one consumer:
    /// a second one is refused and changes nothing.
    pub fn try_set_consumer(&self, environment: &mut RuntimeEnvironment, consumer: i32) -> (result:
        RuntimeResult<()>)
        requires
            self.belongs(old(environment)@),
        ensures
            ({
                let node = old(environment)@.nodes[self.spec_node()];
                match result {
                    Ok(_) => {
                        &&& node.link is None
                        &&& final(environment)@ == old(environment)@.connected(
                            self.spec_node(),
                            consumer,
                        )
                    },
                    Err(error) => {
                        &&& node.link is Some
                        &&& error@ == RuntimeErrorView::ConsumerAlreadySet(node.name)
                        &&& final(environment)@ == old(environment)@
                    },
                }
            }),
    {
        if self.link_collector(environment).is_some() {
            let stream = self.name(environment);
            return Err(RuntimeError::ConsumerAlreadySet { stream });
        }
        environment.connect(self.node, consumer);
        Ok(())
    }

    /// The collector that writes to this stream.
    pub fn collector(&self) -> (collector: Collector<T>)
        ensures
            collector.spec_stream() == *self,
    {
        Collector { stream: *self }
    }
}

impl<K, V> Stream<KeyValue<K, V>> {
    /// Adds a stream of values under keys, whose serde pairs one for keys with one for
    /// values.
    pub fn keyed(config: &StreamConfig, environment: &mut RuntimeEnvironment) -> (stream: Stream<
        KeyValue<K, V>,
    >)
        ensures
            final(environment)@ == old(environment)@.with_keyed_stream(
                config.id,
                config.id,
                config.name@,
            ),
            stream.newest(final(environment)@),
            stream.spec_id() == config.id,
    {
        let node: usize = environment.add_keyed_node(config.id, config.id, config.name.clone());
        Stream { node, id: config.id, carries: PhantomData }
    }
}

/// What comes of letting `source` hand its messages to `consumer`, once the graph
/// `before` has grown to `graph`: the edge is there, or the source had a consumer
/// already and is refused.
pub open spec fn attached<T, V>(
    source: Stream<T>,
    before: EnvironmentView,
    graph: EnvironmentView,
    consumer: i32,
    after: EnvironmentView,
    result: RuntimeResult<V>,
) -> bool {
    let node = before.nodes[source.spec_node()];
    match result {
        Ok(_) => {
            &&& node.link is None
            &&& after == graph.connected(source.spec_node(), consumer)
        },
        Err(error) => {
            &&& node.link is Some
            &&& error@ == RuntimeErrorView::ConsumerAlreadySet(node.name)
            &&& after == graph
        },
    }
}

/// A message that a function hands out.
pub struct Collected<T> {
    pub context: MessageContext,
    pub value: T,
}

/// Writes to one stream.
pub struct Collector<T> {
    stream: Stream<T>,
}

impl<T> Collector<T> {
    pub closed spec fn spec_stream(&self) -> Stream<T> {
        self.stream
    }

    /// The stream that the collector writes to.
    pub fn stream(&self) -> (stream: &Stream<T>)
        ensures
            *stream == self.spec_stream(),
    {
        &self.stream
    }

    /// Hands on a payload as it is.
    pub fn out_payload(&self, context: MessageContext, payload: Payload<T>) -> (emission: Emission<
        T,
    >)
        ensures
            emission == (Emission { stream: self.spec_stream(), context, payload }),
    {
        Emission { stream: self.stream, context, payload }
    }

    /// Hands on a new value.
    pub fn out(&self, context: MessageContext, value: T) -> (emission: Emission<T>)
        ensures
            emission.stream == self.spec_stream(),
            emission.context == context,
            emission.payload@ == value,
    {
        Emission { stream: self.stream, context, payload: Payload::new(value) }
    }

    /// Hands on all values, in their order.
    pub fn out_all(&self, collected: Vec<Collected<T>>) -> (emissions: Vec<Emission<T>>)
        ensures
            emitted(emissions@, self.spec_stream(), collected@),
    {
        let mut emissions: Vec<Emission<T>> = Vec::new();
        for item in iter: collected
            invariant
                iter.seq() == collected@,
                emitted(emissions@, self.spec_stream(), collected@.take(iter.index() as int)),
        {
            let ghost k = iter.index() as int;
            emissions.push(self.out(item.context, item.value));
            proof {
                assert(collected@.take(k + 1) =~= collected@.take(k).push(collected@[k]));
            }
        }
        assert(collected@.take(collected@.len() as int) =~= collected@);
        emissions
    }
}

/// The emissions are exactly the collected messages, in their order, on `stream`.
pub open spec fn emitted<T>(
    emissions: Seq<Emission<T>>,
    stream: Stream<T>,
    collected: Seq<Collected<T>>,
) -> bool {
    &&& emissions.len() == collected.len()
    &&& forall|i: int|
        0 <= i < emissions.len() ==> {
            &&& (#[trigger] emissions[i]).stream == stream
            &&& emissions[i].context == collected[i].context
            &&& emissions[i].payload@ == collected[i].value
        }
}

/// A stream has one consumer: whoever is attached first has it, with an edge of the graph to
/// it, and every later attempt is refused, names the stream, and changes nothing.
pub proof fn law_first_consumer_stays<T, V>(
    source: Stream<T>,
    before: EnvironmentView,
    between: EnvironmentView,
    after: EnvironmentView,
    first: (i32, RuntimeResult<V>),
    second: (i32, RuntimeResult<V>),
)
    requires
        source.belongs(before),
        attached(source, before, before, first.0, between, first.1),
        attached(source, between, between, second.0, after, second.1),
    ensures
        first.1 is Ok <==> before.nodes[source.spec_node()].link is None,
        first.1 is Err ==> between == before,
        first.1 is Ok ==> {
            &&& between.nodes[source.spec_node()].link matches Some(link) && link.consumer
                == first.0
            &&& between.links.len() == before.links.len() + 1
            &&& between.links.last().from == source.spec_id()
            &&& between.links.last().to == first.0
        },
        second.1 is Err,
        second.1->Err_0@ == RuntimeErrorView::ConsumerAlreadySet(
            before.nodes[source.spec_node()].name,
        ),
        after == between,
        between.nodes[source.spec_node()].link is Some,
{
    law_connecting_changes_one_stream(before, source.spec_node(), first.0);
}

/// What a function hands out is written in full, in its order, to one stream, each message
/// with its own context and value.
pub proof fn law_all_is_emitted_in_order<T>(
    emissions: Seq<Emission<T>>,
    stream: Stream<T>,
    collected: Seq<Collected<T>>,
    index: int,
)
    requires
        emitted(emissions, stream, collected),
        0 <= index < collected.len(),
    ensures
        emissions.len() == collected.len(),
        emissions[index].stream == stream,
        emissions[index].context == collected[index].context,
        emissions[index].payload@ == collected[index].value,
{
}

/// A new stream is the last of its graph and stands there under its own id.
pub proof fn law_newest_stream_is_last<T>(stream: Stream<T>, graph: EnvironmentView)
    requires
        stream.newest(graph),
    ensures
        graph.nodes.len() > 0,
        stream.spec_node() == graph.nodes.len() - 1,
        graph.nodes.last().id == stream.spec_id(),
{
}

} // verus!
