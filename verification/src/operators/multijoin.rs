//! Multi-join: values of any number of streams meet under their keys.
use std::marker::PhantomData;
use std::sync::Arc;

use vstd::pervasive::*;
use vstd::prelude::*;

use crate::operators::join::{JoinEntry, Joined};
use crate::runtime::common::{taken_from, Emission, MessageContext, Payload};
use crate::runtime::config::MultiJoinStreamConfig;
use crate::runtime::datastruct::KeyValue;
use crate::runtime::environment::{
    law_streams_are_added_last, EnvironmentView, RuntimeEnvironment,
};
use crate::runtime::error::RuntimeResult;
use crate::runtime::stream::{attached, emitted, Collector, Stream};

verus! {

/// A value of one of several types.
pub trait JoinValue<T> {
    /// The value, if it is of this type.
    spec fn held(&self) -> Option<T>;

    fn downcast(&self) -> (value: Option<&T>)
        ensures
            match value {
                Some(found) => self.held() == Some(*found),
                None => self.held() is None,
            },
    ;
}

/// Where all streams of a join carry one type, a payload stands for its value.
impl<T> JoinValue<T> for Payload<T> {
    open spec fn held(&self) -> Option<T> {
        Some(self@)
    }

    fn downcast(&self) -> (value: Option<&T>) {
        Some(self.get())
    }
}

/// A slot holds a value or is left to another type.
impl<T> JoinValue<T> for Option<T> {
    open spec fn held(&self) -> Option<T> {
        *self
    }

    fn downcast(&self) -> (value: Option<&T>) {
        self.as_ref()
    }
}

/// What is done with the values that met under a key. Services implement it. The
/// values of the stream with number `i` stand at index `i`.
pub trait MultiJoinFunction<K, V, O> {
    fn multi_join(
        &self,
        context: MessageContext,
        stream: &Stream<O>,
        key: K,
        values: Vec<Vec<V>>,
    ) -> Joined<O>;
}

/// Operators may share a function without sharing anything else.
impl<K, V, O, F: MultiJoinFunction<K, V, O>> MultiJoinFunction<K, V, O> for Arc<F> {
    fn multi_join(
        &self,
        context: MessageContext,
        stream: &Stream<O>,
        key: K,
        values: Vec<Vec<V>>,
    ) -> (joined: Joined<O>)
        ensures
            call_ensures(
                F::multi_join,
                (&**self, context, stream, key, values),
                joined,
            ),
    {
        (**self).multi_join(context, stream, key, values)
    }
}

/// Clones of the values of one stream. A stream that has none yet gives none. Every
/// value must be of the type that the stream was registered with.
pub fn downcast_join_values<T: Clone, V: JoinValue<T>>(values: &Vec<Vec<V>>, index: usize) -> (found:
    Vec<T>)
    requires
        index < values@.len() ==> forall|i: int|
            0 <= i < values@[index as int]@.len() ==> (
            #[trigger] values@[index as int]@[i]).held() is Some,
    ensures
        index >= values@.len() ==> found@.len() == 0,
        index < values@.len() ==> {
            &&& found@.len() == values@[index as int]@.len()
            &&& forall|i: int|
                0 <= i < found@.len() ==> cloned(
                    values@[index as int]@[i].held()->0,
                    #[trigger] found@[i],
                )
        },
{
    let mut found: Vec<T> = Vec::new();
    if index >= values.len() {
        return found;
    }
    let side = &values[index];
    let mut i: usize = 0;
    while i < side.len()
        invariant
            i <= side@.len(),
            forall|k: int| 0 <= k < side@.len() ==> (#[trigger] side@[k]).held() is Some,
            found@.len() == i,
            forall|k: int|
                0 <= k < found@.len() ==> cloned(side@[k].held()->0, #[trigger] found@[k]),
        decreases side@.len() - i,
    {
        assert(side@[i as int].held() is Some);
        match side[i].downcast() {
            Some(value) => {
                let copy = value.clone();
                found.push(copy);
            },
            None => {},
        }
        i = i + 1;
    }
    found
}

/// The number after `number`. After the last one they start over.
pub open spec fn next_number(number: usize) -> usize {
    if number == usize::MAX {
        0
    } else {
        (number + 1) as usize
    }
}

/// The number that the input gets that is added after `earlier` others, counting those
/// that were refused.
pub open spec fn input_number(earlier: nat) -> usize
    decreases earlier,
{
    if earlier == 0 {
        1
    } else {
        next_number(input_number((earlier - 1) as nat))
    }
}

/// The operator.
pub struct MultiJoinStream<K, V, O, F> {
    output: Stream<O>,
    function: F,
    next_index: usize,
    takes: PhantomData<(K, V)>,
}

/// The input of a multi-join with the number `index`.
pub struct MultiJoinLinkStream<K, T, O> {
    pub index: usize,
    collector: Collector<O>,
    takes: PhantomData<(K, T)>,
}

/// The graph once the storage of a multi-join's values and its output were added.
pub open spec fn with_multi_join(graph: EnvironmentView, config: MultiJoinStreamConfig) ->
    EnvironmentView {
    graph.with_storage(config.stream.id).with_stream(
        config.stream.id,
        config.stream.id,
        config.stream.name@,
        None,
    )
}

impl<K, V, O, F> MultiJoinStream<K, V, O, F> {
    pub closed spec fn spec_output(&self) -> Stream<O> {
        self.output
    }

    pub closed spec fn spec_function(&self) -> F {
        self.function
    }

    /// The number that the next input gets.
    pub closed spec fn spec_next(&self) -> usize {
        self.next_index
    }

    /// Puts the operator behind its left stream.
    pub fn make<T>(
        config: &MultiJoinStreamConfig,
        left: &Stream<KeyValue<K, T>>,
        function: F,
        environment: &mut RuntimeEnvironment,
        storage_metrics: RuntimeResult<()>,
    ) -> (result: RuntimeResult<(MultiJoinStream<K, V, O, F>, MultiJoinLinkStream<K, T, O>)>)
        requires
            left.belongs(old(environment)@),
        ensures
            match storage_metrics {
                Ok(_) => attached(
                    *left,
                    old(environment)@,
                    with_multi_join(old(environment)@, *config),
                    config.stream.id,
                    final(environment)@,
                    result,
                ),
                Err(failure) => {
                    &&& result is Err
                    &&& result->Err_0@ == failure@
                    &&& final(environment)@ == old(environment)@
                },
            },
            result matches Ok((operator, link)) ==> {
                &&& operator.spec_output().newest(final(environment)@)
                &&& operator.spec_output().spec_id() == config.stream.id
                &&& operator.spec_function() == function
                &&& operator.spec_next() == 1
                &&& link.spec_index() == 0
                &&& link.spec_output() == operator.spec_output()
            },
    {
        let operator = match Self::new(config, function, environment, storage_metrics) {
            Ok(operator) => operator,
            Err(error) => return Err(error),
        };
        match operator.connect_left(left, operator.output.collector(), environment) {
            Ok(link) => Ok((operator, link)),
            Err(error) => Err(error),
        }
    }

    /// Adds the operator without inputs, with a storage for its values.
    /// `storage_metrics` is what setting up the metrics of the storage came to; where it
    /// failed, nothing is added.
    pub fn new(
        config: &MultiJoinStreamConfig,
        function: F,
        environment: &mut RuntimeEnvironment,
        storage_metrics: RuntimeResult<()>,
    ) -> (result: RuntimeResult<MultiJoinStream<K, V, O, F>>)
        ensures
            match storage_metrics {
                Ok(_) => {
                    &&& final(environment)@ == with_multi_join(old(environment)@, *config)
                    &&& result matches Ok(operator) && {
                        &&& operator.spec_output().newest(final(environment)@)
                        &&& operator.spec_output().spec_id() == config.stream.id
                        &&& operator.spec_function() == function
                        &&& operator.spec_next() == 1
                    }
                },
                Err(failure) => {
                    &&& result is Err
                    &&& result->Err_0@ == failure@
                    &&& final(environment)@ == old(environment)@
                },
            },
    {
        match storage_metrics {
            Ok(_) => {},
            Err(error) => return Err(error),
        }
        environment.register_storage(config.stream.id);
        let output: Stream<O> = Stream::new(&config.stream, environment);
        Ok(MultiJoinStream { output, function, next_index: 1, takes: PhantomData })
    }

    pub fn stream(&self) -> (stream: &Stream<O>)
        ensures
            *stream == self.spec_output(),
    {
        &self.output
    }

    /// Adds an input.
    pub fn add<T>(&mut self, source: &Stream<KeyValue<K, T>>, environment: &mut RuntimeEnvironment) -> (
        result: RuntimeResult<MultiJoinLinkStream<K, T, O>>)
        requires
            source.belongs(old(environment)@),
        ensures
            attached(
                *source,
                old(environment)@,
                old(environment)@,
                old(self).spec_output().spec_id(),
                final(environment)@,
                result,
            ),
            final(self).spec_output() == old(self).spec_output(),
            final(self).spec_function() == old(self).spec_function(),
            final(self).spec_next() == next_number(old(self).spec_next()),
            result matches Ok(link) ==> {
                &&& link.spec_index() == old(self).spec_next()
                &&& link.spec_output() == old(self).spec_output()
            },
    {
        let collector = self.output.collector();
        self.add_with_collector(source, collector, environment)
    }

    /// Connects the left stream, whose values stand at index zero.
    pub fn connect_left<T>(
        &self,
        source: &Stream<KeyValue<K, T>>,
        collector: Collector<O>,
        environment: &mut RuntimeEnvironment,
    ) -> (result: RuntimeResult<MultiJoinLinkStream<K, T, O>>)
        requires
            source.belongs(old(environment)@),
        ensures
            attached(
                *source,
                old(environment)@,
                old(environment)@,
                self.spec_output().spec_id(),
                final(environment)@,
                result,
            ),
            result matches Ok(link) ==> {
                &&& link.spec_index() == 0
                &&& link.spec_output() == collector.spec_stream()
            },
    {
        match source.try_set_consumer(environment, self.output.id()) {
            Ok(_) => Ok(MultiJoinLinkStream { index: 0, collector, takes: PhantomData }),
            Err(error) => Err(error),
        }
    }

    /// Adds an input that writes to a given collector. Its number is taken even if it
    /// is refused.
    pub fn add_with_collector<T>(
        &mut self,
        source: &Stream<KeyValue<K, T>>,
        collector: Collector<O>,
        environment: &mut RuntimeEnvironment,
    ) -> (result: RuntimeResult<MultiJoinLinkStream<K, T, O>>)
        requires
            source.belongs(old(environment)@),
        ensures
            attached(
                *source,
                old(environment)@,
                old(environment)@,
                old(self).spec_output().spec_id(),
                final(environment)@,
                result,
            ),
            final(self).spec_output() == old(self).spec_output(),
            final(self).spec_function() == old(self).spec_function(),
            final(self).spec_next() == next_number(old(self).spec_next()),
            result matches Ok(link) ==> {
                &&& link.spec_index() == old(self).spec_next()
                &&& link.spec_output() == collector.spec_stream()
            },
    {
        let index: usize = self.next_index;
        self.next_index = index.wrapping_add(1);
        match source.try_set_consumer(environment, self.output.id()) {
            Ok(_) => Ok(MultiJoinLinkStream { index, collector, takes: PhantomData }),
            Err(error) => Err(error),
        }
    }

    /// Hands the values under a key to the function, once, if the left stream has
    /// some, and writes what it hands out to the collector of the input that the last
    /// value came through. Says whether the values have been used up.
    pub fn call_function(
        &self,
        collector: &Collector<O>,
        context: MessageContext,
        key: K,
        values: Vec<Vec<V>>,
    ) -> (outcome: (bool, Vec<Emission<O>>)) where F: MultiJoinFunction<K, V, O>
        ensures
            if values@.len() > 0 && values@[0]@.len() > 0 {
                exists|joined: Joined<O>|
                    #[trigger] call_ensures(
                        F::multi_join,
                        (&self.spec_function(), context, &self.spec_output(), key, values),
                        joined,
                    ) && outcome.0 == joined.done && emitted(
                        outcome.1@,
                        collector.spec_stream(),
                        joined.collected@,
                    )
            } else {
                !outcome.0 && outcome.1@.len() == 0
            },
    {
        if values.len() == 0 || values[0].len() == 0 {
            return (false, Vec::new());
        }
        let joined = self.function.multi_join(context, &self.output, key, values);
        (joined.done, collector.out_all(joined.collected))
    }
}

impl<K, T, O> MultiJoinLinkStream<K, T, O> {
    pub closed spec fn spec_index(&self) -> usize {
        self.index
    }

    pub closed spec fn spec_output(&self) -> Stream<O> {
        self.collector.spec_stream()
    }

    /// Keeps a value of this input.
    pub fn consume(&self, context: MessageContext, payload: Payload<KeyValue<K, T>>) -> (entry:
        JoinEntry<K, T>) where KeyValue<K, T>: Clone
        ensures
            entry.context == context,
            entry.index == self.spec_index(),
            exists|value: KeyValue<K, T>|
                #[trigger] taken_from(payload@, value) && entry.key == value.key && entry.value
                    == value.value,
    {
        let pair = payload.into_value();
        JoinEntry { context, key: pair.key, index: self.index, value: pair.value }
    }
}

impl<K, T> Stream<KeyValue<K, T>> {
    /// Puts a multi-join behind this stream, which is its left one.
    pub fn multi_join<V, O, F>(
        &self,
        config: &MultiJoinStreamConfig,
        function: F,
        environment: &mut RuntimeEnvironment,
        storage_metrics: RuntimeResult<()>,
    ) -> (result: RuntimeResult<(MultiJoinStream<K, V, O, F>, MultiJoinLinkStream<K, T, O>)>)
        requires
            self.belongs(old(environment)@),
        ensures
            match storage_metrics {
                Ok(_) => attached(
                    *self,
                    old(environment)@,
                    with_multi_join(old(environment)@, *config),
                    config.stream.id,
                    final(environment)@,
                    result,
                ),
                Err(failure) => {
                    &&& result is Err
                    &&& result->Err_0@ == failure@
                    &&& final(environment)@ == old(environment)@
                },
            },
            result matches Ok((operator, link)) ==> {
                &&& operator.spec_output().newest(final(environment)@)
                &&& operator.spec_output().spec_id() == config.stream.id
                &&& operator.spec_function() == function
                &&& operator.spec_next() == 1
                &&& link.spec_index() == 0
                &&& link.spec_output() == operator.spec_output()
            },
    {
        MultiJoinStream::make(config, self, function, environment, storage_metrics)
    }
}

/// The inputs that are added to a multi-join are numbered from one on, in the order in
/// which they are added. While there are numbers left, no two inputs share one, and none
/// has that of the left stream.
pub proof fn law_inputs_are_numbered(earlier: nat, later: nat)
    requires
        earlier < later < usize::MAX,
    ensures
        input_number(earlier) == earlier + 1,
        input_number(later) == later + 1,
        input_number(earlier) != input_number(later),
        input_number(earlier) != 0,
        input_number(later) != 0,
{
    lemma_input_number(earlier);
    lemma_input_number(later);
}

proof fn lemma_input_number(earlier: nat)
    requires
        earlier < usize::MAX,
    ensures
        input_number(earlier) == earlier + 1,
    decreases earlier,
{
    if earlier > 0 {
        lemma_input_number((earlier - 1) as nat);
    }
}

/// A multi-join keeps its values in a storage under its id; its output comes last in the graph
/// and has a serde of its own.
pub proof fn law_multi_join_has_storage_and_output(
    graph: EnvironmentView,
    config: MultiJoinStreamConfig,
)
    ensures
        ({
            let grown = with_multi_join(graph, config);
            &&& grown.storages == graph.storages.push(config.stream.id)
            &&& grown.nodes.drop_last() == graph.nodes
            &&& grown.nodes.last().id == config.stream.id
            &&& grown.nodes.last().name == config.stream.name@
            &&& grown.nodes.last().serde == graph.nodes.len()
            &&& grown.nodes.last().link is None
            &&& grown.links == graph.links
            &&& grown.buildables == graph.buildables
        }),
{
    law_streams_are_added_last(
        graph.with_storage(config.stream.id),
        config.stream.id,
        config.stream.id,
        config.stream.name@,
        None,
    );
}

/// A payload always holds its value; a slot holds what is in it, and nothing where it is left
/// to another type.
pub proof fn law_join_values_hold_what_they_carry<T>(payload: Payload<T>, slot: Option<T>)
    ensures
        JoinValue::<T>::held(&payload) == Some(payload@),
        JoinValue::<T>::held(&slot) == slot,
{
}

} // verus!
