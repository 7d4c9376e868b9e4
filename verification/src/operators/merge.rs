//! Merge: several streams become one.
use vstd::prelude::*;

use crate::operators::filter::with_derived;
use crate::runtime::common::{Emission, MessageContext, Payload};
use crate::runtime::config::MergeStreamConfig;
use crate::runtime::environment::{
    law_connecting_changes_one_stream, EnvironmentView, RuntimeEnvironment,
};
use crate::runtime::error::{RuntimeErrorView, RuntimeResult};
use crate::runtime::stream::{Collector, Stream};

verus! {

/// Adds the output, with the serde of the first source, without connecting it.
pub fn create<T>(
    config: &MergeStreamConfig,
    source: &Stream<T>,
    environment: &mut RuntimeEnvironment,
) -> (output: Stream<T>)
    requires
        source.belongs(old(environment)@),
    ensures
        final(environment)@ == with_derived(old(environment)@, config.stream, source.spec_node()),
        output.newest(final(environment)@),
        output.spec_id() == config.stream.id,
{
    let serde: usize = source.get_serde(environment);
    Stream::derived(&config.stream, environment, serde)
}

/// The graph with the sources from `from` on connected to `consumer`, one after the
/// other, up to the first that has a consumer already; that source's error, if there
/// is one.
pub open spec fn connect_all<T>(
    graph: EnvironmentView,
    sources: Seq<Stream<T>>,
    consumer: i32,
    from: int,
) -> (EnvironmentView, Option<RuntimeErrorView>)
    decreases sources.len() - from,
{
    if from >= sources.len() {
        (graph, None)
    } else {
        let node = graph.nodes[sources[from].spec_node()];
        if node.link is Some {
            (graph, Some(RuntimeErrorView::ConsumerAlreadySet(node.name)))
        } else {
            connect_all(
                graph.connected(sources[from].spec_node(), consumer),
                sources,
                consumer,
                from + 1,
            )
        }
    }
}

/// The operator.
pub struct MergeStream<T> {
    collector: Collector<T>,
}

impl<T> MergeStream<T> {
    /// The stream that the operator writes to.
    pub closed spec fn spec_output(&self) -> Stream<T> {
        self.collector.spec_stream()
    }

    /// Puts the operator behind `sources`. A merge needs at least one source; one that
    /// has a consumer already ends the connecting.
    pub fn make(
        config: &MergeStreamConfig,
        sources: &Vec<Stream<T>>,
        environment: &mut RuntimeEnvironment,
    ) -> (result: RuntimeResult<(Stream<T>, MergeStream<T>)>)
        requires
            sources@.len() > 0,
            forall|i: int|
                0 <= i < sources@.len() ==> (#[trigger] sources@[i]).belongs(old(environment)@),
        ensures
            ({
                let graph = with_derived(
                    old(environment)@,
                    config.stream,
                    sources@[0].spec_node(),
                );
                let (after, failure) = connect_all(graph, sources@, config.stream.id, 0);
                &&& final(environment)@ == after
                &&& match result {
                    Ok((output, operator)) => {
                        &&& failure is None
                        &&& output.newest(final(environment)@)
                        &&& output.spec_id() == config.stream.id
                        &&& operator.spec_output() == output
                    },
                    Err(error) => failure == Some(error@),
                }
            }),
    {
        let output = create(config, &sources[0], environment);
        let operator = Self::from_collector(output.collector());
        let ghost graph = environment@;
        let mut i: usize = 0;
        while i < sources.len()
            invariant
                i <= sources@.len(),
                output.newest(environment@),
                output.spec_id() == config.stream.id,
                graph == with_derived(
                    old(environment)@,
                    config.stream,
                    sources@[0].spec_node(),
                ),
                forall|k: int|
                    0 <= k < sources@.len() ==> (#[trigger] sources@[k]).belongs(environment@),
                connect_all(graph, sources@, config.stream.id, 0) == connect_all(
                    environment@,
                    sources@,
                    config.stream.id,
                    i as int,
                ),
            decreases sources@.len() - i,
        {
            match sources[i].try_set_consumer(environment, output.id()) {
                Ok(_) => {},
                Err(error) => return Err(error),
            }
            i = i + 1;
        }
        Ok((output, operator))
    }

    /// The operator that writes to a given collector.
    pub fn from_collector(collector: Collector<T>) -> (operator: MergeStream<T>)
        ensures
            operator.spec_output() == collector.spec_stream(),
    {
        MergeStream { collector }
    }

    /// Writes a message as it is.
    pub fn consume(&self, context: MessageContext, payload: Payload<T>) -> (emission: Emission<T>)
        ensures
            emission == (Emission { stream: self.spec_output(), context, payload }),
    {
        self.collector.out_payload(context, payload)
    }
}

impl<T> Stream<T> {
    /// Merges this stream, first, with others.
    pub fn merge(
        &self,
        config: &MergeStreamConfig,
        streams: &Vec<Stream<T>>,
        environment: &mut RuntimeEnvironment,
    ) -> (result: RuntimeResult<(Stream<T>, MergeStream<T>)>)
        requires
            self.belongs(old(environment)@),
            forall|i: int|
                0 <= i < streams@.len() ==> (#[trigger] streams@[i]).belongs(old(environment)@),
        ensures
            ({
                let sources = Seq::empty().push(*self) + streams@;
                let graph = with_derived(old(environment)@, config.stream, self.spec_node());
                let (after, failure) = connect_all(graph, sources, config.stream.id, 0);
                &&& final(environment)@ == after
                &&& match result {
                    Ok((output, operator)) => {
                        &&& failure is None
                        &&& output.newest(final(environment)@)
                        &&& output.spec_id() == config.stream.id
                        &&& operator.spec_output() == output
                    },
                    Err(error) => failure == Some(error@),
                }
            }),
    {
        let mut sources: Vec<Stream<T>> = Vec::new();
        sources.push(*self);
        let mut i: usize = 0;
        while i < streams.len()
            invariant
                i <= streams@.len(),
                sources@.len() == i + 1,
                sources@[0] == *self,
                forall|k: int| 0 <= k < i ==> sources@[k + 1] == #[trigger] streams@[k],
            decreases streams@.len() - i,
        {
            sources.push(streams[i]);
            i = i + 1;
        }
        assert(sources@ =~= Seq::empty().push(*self) + streams@);
        assert forall|k: int| 0 <= k < sources@.len() implies (#[trigger] sources@[k]).belongs(
            old(environment)@,
        ) by {
            if k > 0 {
                assert(sources@[k] == streams@[k - 1]);
            }
        }
        MergeStream::make(config, &sources, environment)
    }
}

/// Once a merge is made, every one of its sources hands its messages to it.
pub proof fn law_merge_connects_every_source<T>(
    graph: EnvironmentView,
    sources: Seq<Stream<T>>,
    consumer: i32,
    from: int,
    index: int,
)
    requires
        0 <= from <= index < sources.len(),
        forall|i: int| 0 <= i < sources.len() ==> (#[trigger] sources[i]).belongs(graph),
        connect_all(graph, sources, consumer, from).1 is None,
    ensures
        ({
            let after = connect_all(graph, sources, consumer, from).0;
            &&& after.nodes.len() == graph.nodes.len()
            &&& after.nodes[sources[index].spec_node()].link matches Some(link) && link.consumer
                == consumer
        }),
    decreases sources.len() - from,
{
    let source = sources[from].spec_node();
    let next = graph.connected(source, consumer);
    if from < index {
        law_merge_connects_every_source(next, sources, consumer, from + 1, index);
    } else {
        lemma_links_stay(next, sources, consumer, from + 1, source);
    }
}

proof fn lemma_links_stay<T>(
    graph: EnvironmentView,
    sources: Seq<Stream<T>>,
    consumer: i32,
    from: int,
    node: int,
)
    requires
        0 <= from <= sources.len(),
        0 <= node < graph.nodes.len(),
        forall|i: int| 0 <= i < sources.len() ==> (#[trigger] sources[i]).belongs(graph),
        graph.nodes[node].link is Some,
        connect_all(graph, sources, consumer, from).1 is None,
    ensures
        connect_all(graph, sources, consumer, from).0.nodes.len() == graph.nodes.len(),
        connect_all(graph, sources, consumer, from).0.nodes[node] == graph.nodes[node],
    decreases sources.len() - from,
{
    if from < sources.len() {
        let source = sources[from].spec_node();
        lemma_links_stay(
            graph.connected(source, consumer),
            sources,
            consumer,
            from + 1,
            node,
        );
    }
}

/// A merge that cannot be made names the first source that has a consumer already, and the
/// sources before it stay connected; one is refused only for such a source.
pub proof fn law_merge_is_refused_for_a_taken_source<T>(
    graph: EnvironmentView,
    sources: Seq<Stream<T>>,
    consumer: i32,
    from: int,
)
    requires
        0 <= from <= sources.len(),
        forall|i: int| 0 <= i < sources.len() ==> (#[trigger] sources[i]).belongs(graph),
    ensures
        ({
            let (after, refused) = connect_all(graph, sources, consumer, from);
            &&& after.nodes.len() == graph.nodes.len()
            &&& after.links.len() >= graph.links.len()
            &&& refused is None ==> after.links.len() == graph.links.len() + sources.len() - from
            &&& refused is Some ==> exists|i: int|
                {
                    &&& from <= i < sources.len()
                    &&& after.links.len() == graph.links.len() + i - from
                    &&& after.nodes[(#[trigger] sources[i]).spec_node()].link is Some
                    &&& refused == Some(
                        RuntimeErrorView::ConsumerAlreadySet(
                            graph.nodes[sources[i].spec_node()].name,
                        ),
                    )
                }
            &&& forall|n: int|
                0 <= n < graph.nodes.len() ==> (#[trigger] after.nodes[n]).name
                    == graph.nodes[n].name && after.nodes[n].id == graph.nodes[n].id
        }),
    decreases sources.len() - from,
{
    if from < sources.len() {
        let source = sources[from].spec_node();
        assert(sources[from].belongs(graph));
        if graph.nodes[source].link is None {
            let next = graph.connected(source, consumer);
            law_connecting_changes_one_stream(graph, source, consumer);
            assert forall|i: int| 0 <= i < sources.len() implies (#[trigger] sources[i]).belongs(
                next,
            ) by {
                assert(sources[i].belongs(graph));
            }
            law_merge_is_refused_for_a_taken_source(next, sources, consumer, from + 1);
        }
    }
}

} // verus!
