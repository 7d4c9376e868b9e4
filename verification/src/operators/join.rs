//! Join: values of two streams meet under their keys.
use std::marker::PhantomData;
use std::sync::Arc;

use vstd::prelude::*;

use crate::runtime::common::{
    another_handle, taken_from, Emission, MessageContext, Payload,
};
use crate::runtime::config::{JoinStreamConfig, JoinType, RuntimeConfig, RuntimeStreamConfig};
use crate::runtime::datastruct::KeyValue;
use crate::runtime::environment::{
    law_connecting_changes_one_stream, law_streams_are_added_last, EnvironmentView,
    RuntimeEnvironment,
};
use crate::runtime::error::{RuntimeErrorView, RuntimeResult};
use crate::runtime::stream::{emitted, Collected, Collector, Stream};

verus! {

/// Adds the output, with a serde of its own, without connecting it.
pub fn create<O>(config: &JoinStreamConfig, environment: &mut RuntimeEnvironment) -> (output:
    Stream<O>)
    ensures
        final(environment)@ == old(environment)@.with_stream(
            config.stream.id,
            config.stream.id,
            config.stream.name@,
            None,
        ),
        output.newest(final(environment)@),
        output.spec_id() == config.stream.id,
{
    Stream::new(&config.stream, environment)
}

/// What a join function decides about the values under a key.
pub struct Joined<O> {
    /// Whether the values have been used up.
    pub done: bool,
    pub collected: Vec<Collected<O>>,
}

/// What is done with the values that met under a key. Services implement it.
pub trait JoinFunction<K, L, R, O> {
    fn join(
        &self,
        context: MessageContext,
        stream: &Stream<O>,
        key: K,
        left: Vec<L>,
        right: Vec<R>,
    ) -> Joined<O>;
}

/// Operators may share a function without sharing anything else.
impl<K, L, R, O, F: JoinFunction<K, L, R, O>> JoinFunction<K, L, R, O> for Arc<F> {
    fn join(
        &self,
        context: MessageContext,
        stream: &Stream<O>,
        key: K,
        left: Vec<L>,
        right: Vec<R>,
    ) -> (joined: Joined<O>)
        ensures
            call_ensures(
                F::join,
                (&**self, context, stream, key, left, right),
                joined,
            ),
    {
        (**self).join(context, stream, key, left, right)
    }
}

/// How a join stream is configured to join.
pub open spec fn configured_join(config: RuntimeConfig, id: i32) -> JoinType {
    match config.spec_stream_config(id) {
        Some(RuntimeStreamConfig::Join(join)) => join.join_type,
        _ => JoinType::Undefined,
    }
}

/// Whether the function is called with values on the sides that have some.
pub open spec fn joins(join_type: JoinType, has_left: bool, has_right: bool) -> bool {
    match join_type {
        JoinType::Inner => has_left && has_right,
        JoinType::Left => has_left,
        JoinType::Right => has_right,
        JoinType::Outer => true,
        JoinType::Undefined => false,
    }
}

/// Whether the function is called with values on the sides that have some.
pub fn can_call(join_type: JoinType, has_left: bool, has_right: bool) -> (call: bool)
    ensures
        call == joins(join_type, has_left, has_right),
{
    match join_type {
        JoinType::Inner => has_left && has_right,
        JoinType::Left => has_left,
        JoinType::Right => has_right,
        JoinType::Outer => true,
        JoinType::Undefined => false,
    }
}

/// A value that is to be kept under its key, on a side: zero is left, one is right.
pub struct JoinEntry<K, V> {
    pub context: MessageContext,
    pub key: K,
    pub index: usize,
    pub value: V,
}

/// The operator.
pub struct JoinStream<K, L, R, O, F> {
    collector: Collector<O>,
    function: Arc<F>,
    takes: PhantomData<(K, L, R)>,
}

/// The right side of a join.
pub struct JoinLink<K, L, R, O, F> {
    join_stream: JoinStream<K, L, R, O, F>,
}

/// The graph once the output of a join was added.
pub open spec fn with_join_output(graph: EnvironmentView, config: JoinStreamConfig) ->
    EnvironmentView {
    graph.with_stream(config.stream.id, config.stream.id, config.stream.name@, None)
}

/// The graph once the output of a join and the storage of its values were added.
pub open spec fn with_join(graph: EnvironmentView, config: JoinStreamConfig) -> EnvironmentView {
    with_join_output(graph, config).with_storage(config.stream.id)
}

/// What comes of connecting both sides of a join: the left first, then the right; a
/// side that has a consumer already is refused.
pub open spec fn sides_connected<K, L, R, V>(
    left: Stream<KeyValue<K, L>>,
    right: Stream<KeyValue<K, R>>,
    graph: EnvironmentView,
    consumer: i32,
    after: EnvironmentView,
    result: RuntimeResult<V>,
) -> bool {
    let left_node = graph.nodes[left.spec_node()];
    let half = graph.connected(left.spec_node(), consumer);
    let right_node = half.nodes[right.spec_node()];
    if left_node.link is Some {
        &&& result is Err
        &&& result->Err_0@ == RuntimeErrorView::ConsumerAlreadySet(left_node.name)
        &&& after == graph
    } else if right_node.link is Some {
        &&& result is Err
        &&& result->Err_0@ == RuntimeErrorView::ConsumerAlreadySet(right_node.name)
        &&& after == half
    } else {
        &&& result is Ok
        &&& after == half.connected(right.spec_node(), consumer)
    }
}

impl<K, L, R, O, F> JoinStream<K, L, R, O, F> {
    /// The stream that the operator writes to.
    pub closed spec fn spec_output(&self) -> Stream<O> {
        self.collector.spec_stream()
    }

    pub closed spec fn spec_function(&self) -> F {
        *self.function
    }

    /// Puts the operator behind two streams. Where the metrics of its storage could not
    /// be set up, neither stream is connected.
    pub fn make(
        config: &JoinStreamConfig,
        left: &Stream<KeyValue<K, L>>,
        right: &Stream<KeyValue<K, R>>,
        function: F,
        environment: &mut RuntimeEnvironment,
        storage_metrics: RuntimeResult<()>,
    ) -> (result: RuntimeResult<(Stream<O>, JoinStream<K, L, R, O, F>)>)
        requires
            left.belongs(old(environment)@),
            right.belongs(old(environment)@),
        ensures
            match storage_metrics {
                Ok(_) => sides_connected(
                    *left,
                    *right,
                    with_join(old(environment)@, *config),
                    config.stream.id,
                    final(environment)@,
                    result,
                ),
                Err(failure) => {
                    &&& result is Err
                    &&& result->Err_0@ == failure@
                    &&& final(environment)@ == with_join_output(old(environment)@, *config)
                },
            },
            result matches Ok((output, operator)) ==> {
                &&& output.newest(final(environment)@)
                &&& output.spec_id() == config.stream.id
                &&& operator.spec_output() == output
                &&& operator.spec_function() == function
            },
    {
        let output: Stream<O> = create(config, environment);
        let join_stream = match Self::from_collector(
            config,
            output.collector(),
            function,
            environment,
            storage_metrics,
        ) {
            Ok(join_stream) => join_stream,
            Err(error) => return Err(error),
        };
        match left.try_set_consumer(environment, output.id()) {
            Ok(_) => {},
            Err(error) => return Err(error),
        }
        match right.try_set_consumer(environment, output.id()) {
            Ok(_) => Ok((output, join_stream)),
            Err(error) => Err(error),
        }
    }

    /// The operator that writes to a given collector, with a storage for its values.
    /// `storage_metrics` is what setting up the metrics of the storage came to; where it
    /// failed, no storage is registered.
    pub fn from_collector(
        config: &JoinStreamConfig,
        collector: Collector<O>,
        function: F,
        environment: &mut RuntimeEnvironment,
        storage_metrics: RuntimeResult<()>,
    ) -> (result: RuntimeResult<JoinStream<K, L, R, O, F>>)
        ensures
            match storage_metrics {
                Ok(_) => {
                    &&& result matches Ok(operator) && operator.spec_output()
                        == collector.spec_stream() && operator.spec_function() == function
                    &&& final(environment)@ == old(environment)@.with_storage(config.stream.id)
                },
                Err(failure) => {
                    &&& result is Err
                    &&& result->Err_0@ == failure@
                    &&& final(environment)@ == old(environment)@
                },
            },
    {
        match storage_metrics {
            Ok(_) => {},
            Err(error) => return Err(error),
        }
        environment.register_storage(config.stream.id);
        Ok(JoinStream { collector, function: Arc::new(function), takes: PhantomData })
    }

    /// The right side of the join.
    pub fn right(&self) -> (link: JoinLink<K, L, R, O, F>)
        ensures
            link.spec_join().spec_output() == self.spec_output(),
            link.spec_join().spec_function() == self.spec_function(),
    {
        JoinLink {
            join_stream: JoinStream {
                collector: self.collector.stream().collector(),
                function: another_handle(&self.function),
                takes: PhantomData,
            },
        }
    }

    /// Keeps a value of the left side.
    pub fn consume(&self, context: MessageContext, payload: Payload<KeyValue<K, L>>) -> (entry:
        JoinEntry<K, L>) where KeyValue<K, L>: Clone
        ensures
            entry.context == context,
            entry.index == 0,
            exists|value: KeyValue<K, L>|
                #[trigger] taken_from(payload@, value) && entry.key == value.key && entry.value
                    == value.value,
    {
        let pair = payload.into_value();
        JoinEntry { context, key: pair.key, index: 0, value: pair.value }
    }

    /// Writes what the function handed out, as it is and in its order.
    pub fn emit(&self, collected: Vec<Collected<O>>) -> (emissions: Vec<Emission<O>>)
        ensures
            emitted(emissions@, self.spec_output(), collected@),
    {
        self.collector.out_all(collected)
    }

    /// Hands the values under a key to the function, once, if the kind of the join
    /// allows it. Says whether the values have been used up.
    pub fn call_function(
        &self,
        environment: &RuntimeEnvironment,
        context: MessageContext,
        key: K,
        left: Vec<L>,
        right: Vec<R>,
    ) -> (outcome: (bool, Vec<Emission<O>>)) where F: JoinFunction<K, L, R, O>
        ensures
            ({
                let join_type = configured_join(environment@.config, self.spec_output().spec_id());
                if joins(join_type, left@.len() > 0, right@.len() > 0) {
                    exists|joined: Joined<O>|
                        #[trigger] call_ensures(
                            F::join,
                            (&self.spec_function(), context, &self.spec_output(), key, left, right),
                            joined,
                        ) && outcome.0 == joined.done && emitted(
                            outcome.1@,
                            self.spec_output(),
                            joined.collected@,
                        )
                } else {
                    !outcome.0 && outcome.1@.len() == 0
                }
            }),
    {
        let join_type = match environment.runtime_config().stream_config(
            self.collector.stream().id(),
        ) {
            Some(RuntimeStreamConfig::Join(config)) => config.join_type,
            _ => JoinType::Undefined,
        };
        if !can_call(join_type, left.len() > 0, right.len() > 0) {
            return (false, Vec::new());
        }
        let function: &F = &self.function;
        let joined = function.join(context, self.collector.stream(), key, left, right);
        (joined.done, self.emit(joined.collected))
    }
}

impl<K, L, R, O, F> JoinLink<K, L, R, O, F> {
    pub closed spec fn spec_join(&self) -> JoinStream<K, L, R, O, F> {
        self.join_stream
    }

    /// Keeps a value of the right side.
    pub fn consume(&self, context: MessageContext, payload: Payload<KeyValue<K, R>>) -> (entry:
        JoinEntry<K, R>) where KeyValue<K, R>: Clone
        ensures
            entry.context == context,
            entry.index == 1,
            exists|value: KeyValue<K, R>|
                #[trigger] taken_from(payload@, value) && entry.key == value.key && entry.value
                    == value.value,
    {
        let pair = payload.into_value();
        JoinEntry { context, key: pair.key, index: 1, value: pair.value }
    }
}

impl<K, L> Stream<KeyValue<K, L>> {
    /// Joins this stream, on the left, with another on the right.
    pub fn join<R, O, F>(
        &self,
        config: &JoinStreamConfig,
        right: &Stream<KeyValue<K, R>>,
        function: F,
        environment: &mut RuntimeEnvironment,
        storage_metrics: RuntimeResult<()>,
    ) -> (result: RuntimeResult<(Stream<O>, JoinStream<K, L, R, O, F>)>)
        requires
            self.belongs(old(environment)@),
            right.belongs(old(environment)@),
        ensures
            match storage_metrics {
                Ok(_) => sides_connected(
                    *self,
                    *right,
                    with_join(old(environment)@, *config),
                    config.stream.id,
                    final(environment)@,
                    result,
                ),
                Err(failure) => {
                    &&& result is Err
                    &&& result->Err_0@ == failure@
                    &&& final(environment)@ == with_join_output(old(environment)@, *config)
                },
            },
            result matches Ok((output, operator)) ==> {
                &&& output.newest(final(environment)@)
                &&& output.spec_id() == config.stream.id
                &&& operator.spec_output() == output
                &&& operator.spec_function() == function
            },
    {
        JoinStream::make(config, self, right, function, environment, storage_metrics)
    }
}

/// An inner join never calls its function without values on both sides; a left or a
/// right join not without values on its own side; and an outer join calls it whenever
/// the others would.
pub proof fn law_join_types(has_left: bool, has_right: bool)
    ensures
        joins(JoinType::Inner, has_left, has_right) == (joins(
            JoinType::Left,
            has_left,
            has_right,
        ) && joins(JoinType::Right, has_left, has_right)),
        joins(JoinType::Left, has_left, has_right) == joins(
            JoinType::Right,
            has_right,
            has_left,
        ),
        joins(JoinType::Outer, has_left, has_right),
        !joins(JoinType::Undefined, has_left, has_right),
{
}

/// An inner join is made with values on both sides, a left one whatever the right side has, a
/// right one whatever the left side has, an outer one always, and one that is not configured
/// never; how a stream joins is what its own configuration says.
pub proof fn law_join_needs_the_sides_of_its_type(
    config: RuntimeConfig,
    id: i32,
    has_left: bool,
    has_right: bool,
)
    ensures
        joins(JoinType::Inner, has_left, has_right) <==> has_left && has_right,
        joins(JoinType::Left, has_left, has_right) <==> has_left,
        joins(JoinType::Right, has_left, has_right) <==> has_right,
        joins(JoinType::Outer, has_left, has_right),
        !joins(JoinType::Undefined, has_left, has_right),
        match config.spec_stream_config(id) {
            Some(RuntimeStreamConfig::Join(join)) => configured_join(config, id) == join.join_type,
            _ => configured_join(config, id) == JoinType::Undefined,
        },
{
}

/// A join adds its output and a storage for its values; both of its sides hand their messages
/// to it once it is made, and a side that has a consumer already is what it is refused for, the
/// left one first.
pub proof fn law_join_connects_both_sides<K, L, R, V>(
    left: Stream<KeyValue<K, L>>,
    right: Stream<KeyValue<K, R>>,
    graph: EnvironmentView,
    consumer: i32,
    after: EnvironmentView,
    result: RuntimeResult<V>,
)
    requires
        sides_connected(left, right, graph, consumer, after, result),
        left.belongs(graph),
        right.belongs(graph),
        left.spec_node() != right.spec_node(),
    ensures
        ({
            let l = left.spec_node();
            let r = right.spec_node();
            &&& result is Ok <==> graph.nodes[l].link is None && graph.nodes[r].link is None
            &&& result is Ok ==> {
                &&& after.nodes[l].link matches Some(link) && link.consumer == consumer
                &&& after.nodes[r].link matches Some(link) && link.consumer == consumer
                &&& after.links.len() == graph.links.len() + 2
            }
            &&& graph.nodes[l].link is Some ==> after == graph && result->Err_0@
                == RuntimeErrorView::ConsumerAlreadySet(graph.nodes[l].name)
            &&& graph.nodes[l].link is None && graph.nodes[r].link is Some ==> result->Err_0@
                == RuntimeErrorView::ConsumerAlreadySet(graph.nodes[r].name)
        }),
{
    law_connecting_changes_one_stream(graph, left.spec_node(), consumer);
    let half = graph.connected(left.spec_node(), consumer);
    law_connecting_changes_one_stream(half, right.spec_node(), consumer);
}

/// The output of a join has a serde of its own; its values are kept in a storage under its id.
pub proof fn law_join_has_output_and_storage(graph: EnvironmentView, config: JoinStreamConfig)
    ensures
        with_join_output(graph, config).nodes.drop_last() == graph.nodes,
        with_join_output(graph, config).nodes.last().id == config.stream.id,
        with_join_output(graph, config).nodes.last().name == config.stream.name@,
        with_join_output(graph, config).nodes.last().serde == graph.nodes.len(),
        with_join_output(graph, config).storages == graph.storages,
        with_join(graph, config).nodes == with_join_output(graph, config).nodes,
        with_join(graph, config).storages == graph.storages.push(config.stream.id),
        with_join(graph, config).links == graph.links,
{
    law_streams_are_added_last(
        graph,
        config.stream.id,
        config.stream.id,
        config.stream.name@,
        None,
    );
}

} // verus!
