//! Split: every message goes to all branches.
use vstd::prelude::*;
use vstd::string::*;

use crate::operators::filter::with_derived;
use crate::runtime::common::{Emission, MessageContext, Payload};
use crate::runtime::config::{CallSemantics, SplitStreamConfig, StreamConfig};
use crate::runtime::environment::{
    law_streams_are_added_last, same_but_nodes, EnvironmentView, RuntimeEnvironment, SerdeKind,
};
use crate::runtime::error::{RuntimeError, RuntimeErrorView, RuntimeResult};
use crate::runtime::stream::{Collector, Stream};
use crate::runtime::text::{natural, natural_text};

verus! {

/// The branches of a split, in their order.
pub trait SplitOutputs<T> {
    spec fn outputs(&self) -> Seq<Stream<T>>;

    fn len(&self) -> (count: usize)
        requires
            self.outputs().len() <= usize::MAX,
        ensures
            count == self.outputs().len(),
    ;

    fn is_empty(&self) -> (empty: bool)
        ensures
            empty == (self.outputs().len() == 0),
    ;

    /// The stream of a branch.
    fn stream(&self, index: usize) -> (stream: Stream<T>)
        requires
            index < self.outputs().len(),
        ensures
            stream == self.outputs()[index as int],
    ;

    /// Writes a message to a branch as it is.
    fn emit_at(&self, index: usize, context: MessageContext, payload: Payload<T>) -> (emission:
        Emission<T>)
        requires
            index < self.outputs().len(),
        ensures
            emission == (Emission { stream: self.outputs()[index as int], context, payload }),
    ;
}

impl<T> SplitOutputs<T> for Vec<Stream<T>> {
    open spec fn outputs(&self) -> Seq<Stream<T>> {
        self@
    }

    fn len(&self) -> (count: usize) {
        Vec::len(self)
    }

    fn is_empty(&self) -> (empty: bool) {
        Vec::len(self) == 0
    }

    fn stream(&self, index: usize) -> (stream: Stream<T>) {
        self[index]
    }

    fn emit_at(&self, index: usize, context: MessageContext, payload: Payload<T>) -> (emission:
        Emission<T>) {
        self[index].collector().out_payload(context, payload)
    }
}

impl<T> SplitOutputs<T> for () {
    open spec fn outputs(&self) -> Seq<Stream<T>> {
        Seq::empty()
    }

    fn len(&self) -> (count: usize) {
        0
    }

    fn is_empty(&self) -> (empty: bool) {
        true
    }

    fn stream(&self, index: usize) -> (stream: Stream<T>) {
        vstd::pervasive::unreached()
    }

    fn emit_at(&self, index: usize, context: MessageContext, payload: Payload<T>) -> (emission:
        Emission<T>) {
        vstd::pervasive::unreached()
    }
}

impl<T, Rest: SplitOutputs<T>> SplitOutputs<T> for (Collector<T>, Rest) {
    open spec fn outputs(&self) -> Seq<Stream<T>> {
        Seq::empty().push(self.0.spec_stream()) + self.1.outputs()
    }

    fn len(&self) -> (count: usize) {
        1 + self.1.len()
    }

    fn is_empty(&self) -> (empty: bool) {
        false
    }

    fn stream(&self, index: usize) -> (stream: Stream<T>) {
        if index == 0 {
            *self.0.stream()
        } else {
            self.1.stream(index - 1)
        }
    }

    fn emit_at(&self, index: usize, context: MessageContext, payload: Payload<T>) -> (emission:
        Emission<T>) {
        if index == 0 {
            self.0.out_payload(context, payload)
        } else {
            self.1.emit_at(index - 1, context, payload)
        }
    }
}

/// The graph once the first `count` branches were added: all under the id of the split
/// and with the serde of its source.
pub open spec fn with_links(
    graph: EnvironmentView,
    config: StreamConfig,
    serde: int,
    count: int,
) -> EnvironmentView
    decreases count,
{
    if count <= 0 {
        graph
    } else {
        with_links(graph, config, serde, count - 1).with_stream(
            config.id,
            config.id,
            config.name@ + "SplitLink"@ + natural_text((count - 1) as nat),
            Some(serde),
        )
    }
}

/// The branches are the last streams of the graph, in their order.
pub open spec fn are_links<T>(
    links: Seq<Stream<T>>,
    config: StreamConfig,
    graph: EnvironmentView,
    first: int,
) -> bool {
    forall|i: int|
        0 <= i < links.len() ==> {
            &&& (#[trigger] links[i]).belongs(graph)
            &&& links[i].spec_node() == first + i
            &&& links[i].spec_id() == config.id
        }
}

/// The message for a split with the wrong number of branches.
pub open spec fn branch_count_text(name: Seq<char>, expected: nat, found: nat) -> Seq<char> {
    "split "@ + name + " requires "@ + natural_text(expected) + " branches, received "@
        + natural_text(found)
}

/// Whether a stream hands its messages on without waiting.
pub open spec fn hands_on<T>(graph: EnvironmentView, stream: Stream<T>) -> bool {
    graph.nodes[stream.spec_node()].link matches Some(link) && link.semantics.spec_is_async()
}

/// The branches below `count` that hand messages on without waiting, or that do not,
/// in their order.
pub open spec fn branches_where<T>(
    graph: EnvironmentView,
    outputs: Seq<Stream<T>>,
    waits_not: bool,
    count: int,
) -> Seq<usize>
    decreases count,
{
    if count <= 0 {
        Seq::empty()
    } else {
        let before = branches_where(graph, outputs, waits_not, count - 1);
        if hands_on(graph, outputs[count - 1]) == waits_not {
            before.push((count - 1) as usize)
        } else {
            before
        }
    }
}

/// The order in which branches are served: first those that hand messages on without
/// waiting, then the others, each in the order of the branches.
pub open spec fn serving_order<T>(graph: EnvironmentView, outputs: Seq<Stream<T>>) -> Seq<usize> {
    branches_where(graph, outputs, true, outputs.len() as int) + branches_where(
        graph,
        outputs,
        false,
        outputs.len() as int,
    )
}

/// The order of the branches themselves.
pub open spec fn natural_order(count: nat) -> Seq<usize> {
    Seq::new(count, |i: int| i as usize)
}

/// Whether an order names existing branches only.
pub open spec fn in_range(order: Seq<usize>, count: nat) -> bool {
    forall|i: int| 0 <= i < order.len() ==> (#[trigger] order[i]) < count
}

/// The first branch from `from` on that has no consumer, or the number of branches.
pub open spec fn first_idle<T>(
    graph: EnvironmentView,
    outputs: Seq<Stream<T>>,
    from: int,
) -> int
    decreases outputs.len() - from,
{
    if from >= outputs.len() {
        outputs.len() as int
    } else if graph.nodes[outputs[from].spec_node()].link is None {
        from
    } else {
        first_idle(graph, outputs, from + 1)
    }
}

/// The operator with `N` branches. `B` holds them.
pub struct SplitStream<T, const N: usize, B> {
    stream: Stream<T>,
    links: B,
    dispatch_order: Vec<usize>,
}

impl<T, const N: usize, B: SplitOutputs<T>> SplitStream<T, N, B> {
    pub closed spec fn spec_stream(&self) -> Stream<T> {
        self.stream
    }

    pub closed spec fn spec_outputs(&self) -> Seq<Stream<T>> {
        self.links.outputs()
    }

    /// The order in which branches are served.
    pub closed spec fn spec_order(&self) -> Seq<usize> {
        self.dispatch_order@
    }

    /// There are `N` branches, and the order names existing ones only.
    pub open spec fn wf(&self) -> bool {
        &&& self.spec_outputs().len() == N
        &&& in_range(self.spec_order(), N as nat)
    }

    /// The operator with given branches. There must be `N` of them.
    pub fn from_typed(
        config: &SplitStreamConfig,
        source: &Stream<T>,
        links: B,
        environment: &mut RuntimeEnvironment,
    ) -> (result: RuntimeResult<SplitStream<T, N, B>>)
        requires
            source.belongs(old(environment)@),
            links.outputs().len() <= usize::MAX,
            N <= u64::MAX,
        ensures
            match result {
                Ok(operator) => {
                    &&& links.outputs().len() == N
                    &&& final(environment)@ == with_derived(
                        old(environment)@,
                        config.stream,
                        source.spec_node(),
                    ).with_buildable(config.stream.id)
                    &&& operator.wf()
                    &&& operator.spec_outputs() == links.outputs()
                    &&& operator.spec_order() == natural_order(N as nat)
                    &&& operator.spec_stream().newest(final(environment)@)
                },
                Err(error) => {
                    &&& links.outputs().len() != N
                    &&& error@ == RuntimeErrorView::InvalidConfiguration(
                        branch_count_text(
                            config.stream.name@,
                            N as nat,
                            links.outputs().len() as nat,
                        ),
                    )
                    &&& final(environment)@ == old(environment)@
                },
            },
    {
        let count: usize = links.len();
        if count != N {
            let mut text = String::from_str("split ");
            text.append(config.stream.name.as_str());
            text.append(" requires ");
            text.append(natural(N as u64).as_str());
            text.append(" branches, received ");
            text.append(natural(count as u64).as_str());
            return Err(RuntimeError::InvalidConfiguration(text));
        }
        let serde: usize = source.get_serde(environment);
        let stream: Stream<T> = Stream::derived(&config.stream, environment, serde);
        let mut dispatch_order: Vec<usize> = Vec::new();
        let mut i: usize = 0;
        while i < N
            invariant
                i <= N,
                dispatch_order@.len() == i,
                forall|k: int| 0 <= k < i ==> dispatch_order@[k] == k,
            decreases N - i,
        {
            dispatch_order.push(i);
            i = i + 1;
        }
        assert(dispatch_order@ =~= natural_order(N as nat));
        environment.register_runtime_buildable(config.stream.id);
        Ok(SplitStream { stream, links, dispatch_order })
    }

    /// Settles the order in which branches are served, once all have consumers. A
    /// branch without one fails the building.
    pub fn build(&mut self, environment: &RuntimeEnvironment) -> (result: RuntimeResult<()>)
        requires
            old(self).wf(),
            forall|i: int|
                0 <= i < old(self).spec_outputs().len() ==> (
                #[trigger] old(self).spec_outputs()[i]).belongs(environment@),
        ensures
            final(self).wf(),
            final(self).spec_outputs() == old(self).spec_outputs(),
            final(self).spec_stream() == old(self).spec_stream(),
            ({
                let outputs = old(self).spec_outputs();
                let idle = first_idle(environment@, outputs, 0);
                match result {
                    Ok(_) => {
                        &&& idle == outputs.len()
                        &&& final(self).spec_order() == serving_order(environment@, outputs)
                    },
                    Err(error) => {
                        &&& idle < outputs.len()
                        &&& error@ == RuntimeErrorView::ConsumerNotSet(
                            environment@.nodes[outputs[idle].spec_node()].name,
                        )
                        &&& final(self).spec_order() == old(self).spec_order()
                    },
                }
            }),
    {
        let ghost graph = environment@;
        let ghost outputs = self.spec_outputs();
        let mut i: usize = 0;
        while i < N
            invariant
                *self == *old(self),
                old(self).wf(),
                i <= N,
                graph == environment@,
                outputs == self.spec_outputs(),
                outputs.len() == N,
                forall|k: int|
                    0 <= k < outputs.len() ==> (#[trigger] outputs[k]).belongs(environment@),
                first_idle(graph, outputs, 0) == first_idle(graph, outputs, i as int),
            decreases N - i,
        {
            let link = self.links.stream(i);
            assert(outputs[i as int].belongs(environment@));
            if link.link_collector(environment).is_none() {
                let stream = link.name(environment);
                return Err(RuntimeError::ConsumerNotSet { stream });
            }
            i = i + 1;
        }
        let mut order: Vec<usize> = Vec::new();
        let mut rest: Vec<usize> = Vec::new();
        let mut k: usize = 0;
        while k < N
            invariant
                *self == *old(self),
                old(self).wf(),
                k <= N,
                graph == environment@,
                outputs == self.spec_outputs(),
                outputs.len() == N,
                forall|j: int|
                    0 <= j < outputs.len() ==> (#[trigger] outputs[j]).belongs(environment@),
                first_idle(graph, outputs, 0) == N,
                order@ == branches_where(graph, outputs, true, k as int),
                rest@ == branches_where(graph, outputs, false, k as int),
                in_range(order@, N as nat),
                in_range(rest@, N as nat),
            decreases N - k,
        {
            let link = self.links.stream(k);
            assert(outputs[k as int].belongs(environment@));
            let waits_not: bool = match link.link_collector(environment) {
                Some(found) => found.semantics.is_async(),
                None => false,
            };
            if waits_not {
                order.push(k);
            } else {
                rest.push(k);
            }
            k = k + 1;
        }
        order.append(&mut rest);
        self.dispatch_order = order;
        Ok(())
    }

    /// Writes a message to all branches, in the order in which they are served. They
    /// share the value and the context.
    pub fn consume(&self, context: MessageContext, payload: Payload<T>) -> (emissions: Vec<
        Emission<T>,
    >)
        requires
            self.wf(),
        ensures
            emissions@.len() == self.spec_order().len(),
            forall|i: int|
                0 <= i < emissions@.len() ==> #[trigger] emissions@[i] == (Emission {
                    stream: self.spec_outputs()[self.spec_order()[i] as int],
                    context,
                    payload,
                }),
    {
        let ghost whole = payload;
        let mut emissions: Vec<Emission<T>> = Vec::new();
        let mut remaining = payload;
        let mut i: usize = 0;
        while i < self.dispatch_order.len()
            invariant
                self.wf(),
                i <= self.dispatch_order@.len(),
                remaining == whole,
                emissions@.len() == i,
                forall|k: int|
                    0 <= k < i ==> #[trigger] emissions@[k] == (Emission {
                        stream: self.spec_outputs()[self.spec_order()[k] as int],
                        context,
                        payload: whole,
                    }),
            decreases self.dispatch_order@.len() - i,
        {
            let index: usize = self.dispatch_order[i];
            assert(self.spec_order()[i as int] < N);
            let (branch, rest) = remaining.share();
            remaining = rest;
            emissions.push(self.links.emit_at(index, context.clone(), branch));
            i = i + 1;
        }
        emissions
    }
}

impl<T, const N: usize> SplitStream<T, N, Vec<Stream<T>>> {
    /// Puts the operator behind `source` and hands back its branches.
    pub fn make(
        config: &SplitStreamConfig,
        source: &Stream<T>,
        environment: &mut RuntimeEnvironment,
    ) -> (result: RuntimeResult<(Vec<Stream<T>>, SplitStream<T, N, Vec<Stream<T>>>)>)
        requires
            source.belongs(old(environment)@),
            N <= u64::MAX,
        ensures
            ({
                let node = old(environment)@.nodes[source.spec_node()];
                let linked = with_links(old(environment)@, config.stream, node.serde, N as int);
                let graph = with_derived(
                    linked,
                    config.stream,
                    source.spec_node(),
                ).with_buildable(config.stream.id);
                match result {
                    Ok((links, operator)) => {
                        &&& node.link is None
                        &&& final(environment)@ == graph.connected(
                            source.spec_node(),
                            config.stream.id,
                        )
                        &&& links@.len() == N
                        &&& are_links(
                            links@,
                            config.stream,
                            final(environment)@,
                            old(environment)@.nodes.len() as int,
                        )
                        &&& operator.wf()
                        &&& operator.spec_outputs() == links@
                        &&& operator.spec_order() == natural_order(N as nat)
                    },
                    Err(error) => {
                        &&& node.link is Some
                        &&& error@ == RuntimeErrorView::ConsumerAlreadySet(node.name)
                        &&& final(environment)@ == graph
                    },
                }
            }),
    {
        let links: Vec<Stream<T>> = Self::create_links(config, source, environment);
        proof {
            lemma_links_keep(
                old(environment)@,
                config.stream,
                old(environment)@.nodes[source.spec_node()].serde,
                N as int,
                source.spec_node(),
            );
        }
        let mut copies: Vec<Stream<T>> = Vec::new();
        let mut i: usize = 0;
        while i < links.len()
            invariant
                i <= links@.len(),
                copies@ == links@.take(i as int),
            decreases links@.len() - i,
        {
            copies.push(links[i]);
            i = i + 1;
            assert(copies@ =~= links@.take(i as int));
        }
        assert(copies@ =~= links@);
        let ghost linked = environment@;
        match Self::from_typed(config, source, copies, environment) {
            Ok(operator) => match source.try_set_consumer(environment, config.stream.id) {
                Ok(_) => {
                    assert forall|k: int| 0 <= k < links@.len() implies (
                    #[trigger] links@[k]).belongs(environment@) by {
                        assert(links@[k].belongs(linked));
                    }
                    Ok((links, operator))
                },
                Err(error) => Err(error),
            },
            Err(error) => Err(error),
        }
    }

    /// Adds the `N` branches, without connecting them.
    pub fn create_links(
        config: &SplitStreamConfig,
        source: &Stream<T>,
        environment: &mut RuntimeEnvironment,
    ) -> (links: Vec<Stream<T>>)
        requires
            source.belongs(old(environment)@),
            N <= u64::MAX,
        ensures
            links@.len() == N,
            final(environment)@ == with_links(
                old(environment)@,
                config.stream,
                old(environment)@.nodes[source.spec_node()].serde,
                N as int,
            ),
            are_links(
                links@,
                config.stream,
                final(environment)@,
                old(environment)@.nodes.len() as int,
            ),
    {
        let serde: usize = source.get_serde(environment);
        let ghost first = environment@.nodes.len() as int;
        let mut links: Vec<Stream<T>> = Vec::new();
        let mut index: usize = 0;
        while index < N
            invariant
                index <= N,
                N <= u64::MAX,
                links@.len() == index,
                first == old(environment)@.nodes.len(),
                serde == old(environment)@.nodes[source.spec_node()].serde,
                environment@ == with_links(
                    old(environment)@,
                    config.stream,
                    serde as int,
                    index as int,
                ),
                environment@.nodes.len() == first + index,
                are_links(links@, config.stream, environment@, first),
            decreases N - index,
        {
            let mut name = config.stream.name.clone();
            name.append("SplitLink");
            name.append(natural(index as u64).as_str());
            let ghost before = environment@;
            let link: Stream<T> = Stream::derived_with_name(
                &config.stream,
                environment,
                name,
                serde,
            );
            assert forall|k: int| 0 <= k < links@.len() implies (
            #[trigger] links@[k]).belongs(environment@) by {
                assert(links@[k].belongs(before));
            }
            links.push(link);
            index = index + 1;
        }
        links
    }
}

proof fn lemma_links_keep(
    graph: EnvironmentView,
    config: StreamConfig,
    serde: int,
    count: int,
    node: int,
)
    requires
        0 <= node < graph.nodes.len(),
    ensures
        with_links(graph, config, serde, count).nodes.len() >= graph.nodes.len(),
        with_links(graph, config, serde, count).nodes[node] == graph.nodes[node],
        with_links(graph, config, serde, count).config == graph.config,
    decreases count,
{
    if count > 0 {
        lemma_links_keep(graph, config, serde, count - 1, node);
    }
}

impl<T> Stream<T> {
    /// Splits this stream into `N` branches.
    pub fn split<const N: usize>(
        &self,
        config: &SplitStreamConfig,
        environment: &mut RuntimeEnvironment,
    ) -> (result: RuntimeResult<(Vec<Stream<T>>, SplitStream<T, N, Vec<Stream<T>>>)>)
        requires
            self.belongs(old(environment)@),
            N <= u64::MAX,
        ensures
            ({
                let node = old(environment)@.nodes[self.spec_node()];
                let linked = with_links(old(environment)@, config.stream, node.serde, N as int);
                let graph = with_derived(
                    linked,
                    config.stream,
                    self.spec_node(),
                ).with_buildable(config.stream.id);
                match result {
                    Ok((links, operator)) => {
                        &&& node.link is None
                        &&& final(environment)@ == graph.connected(
                            self.spec_node(),
                            config.stream.id,
                        )
                        &&& links@.len() == N
                        &&& are_links(
                            links@,
                            config.stream,
                            final(environment)@,
                            old(environment)@.nodes.len() as int,
                        )
                        &&& operator.wf()
                        &&& operator.spec_outputs() == links@
                        &&& operator.spec_order() == natural_order(N as nat)
                    },
                    Err(error) => {
                        &&& node.link is Some
                        &&& error@ == RuntimeErrorView::ConsumerAlreadySet(node.name)
                        &&& final(environment)@ == graph
                    },
                }
            }),
    {
        SplitStream::<T, N, Vec<Stream<T>>>::make(config, self, environment)
    }
}

/// Adds the branches of a split, without connecting them.
pub fn create<T, const N: usize>(
    config: &SplitStreamConfig,
    source: &Stream<T>,
    environment: &mut RuntimeEnvironment,
) -> (links: Vec<Stream<T>>)
    requires
        source.belongs(old(environment)@),
        N <= u64::MAX,
    ensures
        links@.len() == N,
        final(environment)@ == with_links(
            old(environment)@,
            config.stream,
            old(environment)@.nodes[source.spec_node()].serde,
            N as int,
        ),
        are_links(
            links@,
            config.stream,
            final(environment)@,
            old(environment)@.nodes.len() as int,
        ),
{
    SplitStream::<T, N, Vec<Stream<T>>>::create_links(config, source, environment)
}

proof fn lemma_branches_where<T>(
    graph: EnvironmentView,
    outputs: Seq<Stream<T>>,
    waits_not: bool,
    count: int,
)
    requires
        0 <= count <= outputs.len() <= usize::MAX,
    ensures
        ({
            let found = branches_where(graph, outputs, waits_not, count);
            &&& found.len() <= count
            &&& forall|i: int|
                0 <= i < found.len() ==> (#[trigger] found[i]) < count && hands_on(
                    graph,
                    outputs[found[i] as int],
                ) == waits_not
            &&& forall|i: int, j: int|
                0 <= i < j < found.len() ==> (#[trigger] found[i]) < (#[trigger] found[j])
            &&& forall|branch: int|
                0 <= branch < count && #[trigger] hands_on(graph, outputs[branch]) == waits_not
                    ==> found.contains(branch as usize)
        }),
    decreases count,
{
    if count > 0 {
        lemma_branches_where(graph, outputs, waits_not, count - 1);
        let before = branches_where(graph, outputs, waits_not, count - 1);
        let found = branches_where(graph, outputs, waits_not, count);
        assert forall|branch: int|
            0 <= branch < count && #[trigger] hands_on(graph, outputs[branch])
                == waits_not implies found.contains(branch as usize) by {
            if branch < count - 1 {
                assert(before.contains(branch as usize));
                let i = choose|i: int| 0 <= i < before.len() && before[i] == branch as usize;
                assert(found[i] == branch as usize);
            } else {
                assert(found[found.len() - 1] == branch as usize);
            }
        }
    }
}

/// Every branch is served exactly once: each has a place in the order, and no two
/// places name the same branch.
pub proof fn law_every_branch_served_once<T>(graph: EnvironmentView, outputs: Seq<Stream<T>>)
    requires
        outputs.len() <= usize::MAX,
    ensures
        in_range(serving_order(graph, outputs), outputs.len()),
        forall|branch: int|
            0 <= branch < outputs.len() ==> #[trigger] serving_order(graph, outputs).contains(
                branch as usize,
            ),
        forall|a: int, b: int|
            0 <= a < b < serving_order(graph, outputs).len() ==> (#[trigger] serving_order(
                graph,
                outputs,
            )[a]) != (#[trigger] serving_order(graph, outputs)[b]),
{
    let n = outputs.len() as int;
    let first = branches_where(graph, outputs, true, n);
    let second = branches_where(graph, outputs, false, n);
    let order = serving_order(graph, outputs);
    lemma_branches_where(graph, outputs, true, n);
    lemma_branches_where(graph, outputs, false, n);
    assert forall|branch: int| 0 <= branch < n implies #[trigger] order.contains(
        branch as usize,
    ) by {
        if hands_on(graph, outputs[branch]) {
            let i = choose|i: int| 0 <= i < first.len() && first[i] == branch as usize;
            assert(order[i] == branch as usize);
        } else {
            let i = choose|i: int| 0 <= i < second.len() && second[i] == branch as usize;
            assert(order[first.len() + i] == branch as usize);
        }
    }
    assert forall|a: int, b: int| 0 <= a < b < order.len() implies (#[trigger] order[a]) != (
    #[trigger] order[b]) by {
        if b < first.len() {
            assert(first[a] < first[b]);
        } else if a >= first.len() {
            assert(second[a - first.len()] < second[b - first.len()]);
        } else {
            assert(hands_on(graph, outputs[first[a] as int]));
            assert(!hands_on(graph, outputs[second[b - first.len()] as int]));
        }
    }
}

/// A branch that waits is served after every branch that does not, and branches of the
/// same sort are served in their own order.
pub proof fn law_waiting_branches_served_last<T>(
    graph: EnvironmentView,
    outputs: Seq<Stream<T>>,
    a: int,
    b: int,
)
    requires
        outputs.len() <= usize::MAX,
        0 <= a < b < serving_order(graph, outputs).len(),
    ensures
        ({
            let order = serving_order(graph, outputs);
            let first = hands_on(graph, outputs[order[a] as int]);
            let second = hands_on(graph, outputs[order[b] as int]);
            &&& second ==> first
            &&& first == second ==> order[a] < order[b]
        }),
{
    let n = outputs.len() as int;
    let first = branches_where(graph, outputs, true, n);
    let second = branches_where(graph, outputs, false, n);
    let order = serving_order(graph, outputs);
    lemma_branches_where(graph, outputs, true, n);
    lemma_branches_where(graph, outputs, false, n);
    if b < first.len() {
        assert(order[a] == first[a] && order[b] == first[b]);
    } else if a >= first.len() {
        assert(order[a] == second[a - first.len()] && order[b] == second[b - first.len()]);
    } else {
        assert(order[a] == first[a] && order[b] == second[b - first.len()]);
    }
}

/// The branch that is found without a consumer is the first of them, and none is found only
/// if every branch has one.
pub proof fn law_first_idle_branch_is_found<T>(
    graph: EnvironmentView,
    outputs: Seq<Stream<T>>,
    from: int,
)
    requires
        0 <= from <= outputs.len(),
    ensures
        ({
            let idle = first_idle(graph, outputs, from);
            &&& from <= idle <= outputs.len()
            &&& idle < outputs.len() ==> graph.nodes[outputs[idle].spec_node()].link is None
            &&& forall|i: int|
                from <= i < idle ==> graph.nodes[(#[trigger] outputs[i]).spec_node()].link is Some
        }),
    decreases outputs.len() - from,
{
    if from < outputs.len() && graph.nodes[outputs[from].spec_node()].link is Some {
        law_first_idle_branch_is_found(graph, outputs, from + 1);
    }
}

/// A branch is served without waiting if and only if its consumer is not called as a function.
pub proof fn law_branches_wait_for_function_calls<T>(graph: EnvironmentView, stream: Stream<T>)
    ensures
        hands_on(graph, stream) <==> (graph.nodes[stream.spec_node()].link matches Some(link)
            && link.semantics != CallSemantics::FunctionCall),
{
}

/// A split adds its branches one after the other, each under the id of the split and a name
/// with its number, without a consumer and with the serde of the source; nothing else changes.
pub proof fn law_split_links_are_numbered(
    graph: EnvironmentView,
    config: StreamConfig,
    serde: int,
    count: int,
    index: int,
)
    requires
        0 <= index < count,
    ensures
        ({
            let grown = with_links(graph, config, serde, count);
            let first = graph.nodes.len() as int;
            &&& grown.nodes.len() == first + count
            &&& grown.nodes.subrange(0, first) == graph.nodes
            &&& grown.nodes[first + index].id == config.id
            &&& grown.nodes[first + index].owner == config.id
            &&& grown.nodes[first + index].name == config.name@ + "SplitLink"@ + natural_text(
                index as nat,
            )
            &&& grown.nodes[first + index].serde == serde
            &&& grown.nodes[first + index].kind == SerdeKind::Inherited
            &&& grown.nodes[first + index].link is None
            &&& same_but_nodes(grown, graph)
        }),
    decreases count,
{
    let first = graph.nodes.len() as int;
    let before = with_links(graph, config, serde, count - 1);
    let name = config.name@ + "SplitLink"@ + natural_text((count - 1) as nat);
    law_streams_are_added_last(before, config.id, config.id, name, Some(serde));
    let grown = with_links(graph, config, serde, count);
    if count == 1 {
        assert(before == graph);
        assert(grown.nodes.subrange(0, first) =~= grown.nodes.drop_last());
    } else {
        if index < count - 1 {
            law_split_links_are_numbered(graph, config, serde, count - 1, index);
        } else {
            law_split_links_are_numbered(graph, config, serde, count - 1, 0);
        }
        assert(grown.nodes.subrange(0, first) =~= before.nodes.subrange(0, first));
        assert(index < count - 1 ==> grown.nodes[first + index] == before.nodes[first + index]);
    }
}

/// Without building, branches are served in their own order.
pub proof fn law_natural_order_is_in_order(count: nat, index: int)
    requires
        0 <= index < count <= usize::MAX,
    ensures
        natural_order(count).len() == count,
        natural_order(count)[index] == index,
{
}

/// Branches that are chained keep their order: the first of a chain comes first, the others
/// follow as they are among themselves.
pub proof fn law_outputs_keep_their_order<T, Rest: SplitOutputs<T>>(
    chain: (Collector<T>, Rest),
    links: Vec<Stream<T>>,
    index: int,
)
    ensures
        chain.outputs().len() == chain.1.outputs().len() + 1,
        chain.outputs()[0] == chain.0.spec_stream(),
        0 <= index < chain.1.outputs().len() ==> chain.outputs()[index + 1]
            == chain.1.outputs()[index],
        links.outputs() == links@,
{
}

/// The branches that a split adds are streams of the graph, one after the other, under the id
/// of the split.
pub proof fn law_links_are_streams_of_the_graph<T>(
    links: Seq<Stream<T>>,
    config: StreamConfig,
    graph: EnvironmentView,
    first: int,
    index: int,
)
    requires
        are_links(links, config, graph, first),
        0 <= index < links.len(),
    ensures
        links[index].belongs(graph),
        links[index].spec_node() == first + index,
        links[index].spec_id() == config.id,
{
}

} // verus!
