//! Flat map over the items of a value.
use std::marker::PhantomData;

use vstd::prelude::*;
use vstd::string::*;

use crate::runtime::common::{taken_from, Emission, MessageContext, Payload};
use crate::runtime::config::FlatMapIterableStreamConfig;
use crate::runtime::environment::RuntimeEnvironment;
use crate::runtime::error::RuntimeResult;
use crate::runtime::stream::{attached, emitted, Collected, Collector, Stream};

verus! {

/// A value that is made of items.
pub trait StreamIterable<R>: Sized {
    /// The items, in their order.
    spec fn items(&self) -> Seq<R>;

    /// Takes the value apart.
    fn into_stream_items(self) -> (items: Vec<R>)
        ensures
            items@ == self.items(),
    ;
}

impl<R> StreamIterable<R> for Vec<R> {
    open spec fn items(&self) -> Seq<R> {
        self@
    }

    fn into_stream_items(self) -> (items: Vec<R>) {
        self
    }
}

/// Calls `Vec::from` on an array: its items, in their order.
#[verifier::external_body]
fn array_items<R, const N: usize>(array: [R; N]) -> (items: Vec<R>)
    ensures
        items@ == array@,
{
    Vec::from(array)
}

impl<R, const N: usize> StreamIterable<R> for [R; N] {
    open spec fn items(&self) -> Seq<R> {
        self@
    }

    fn into_stream_items(self) -> (items: Vec<R>) {
        array_items(self)
    }
}

impl StreamIterable<char> for String {
    open spec fn items(&self) -> Seq<char> {
        self@
    }

    fn into_stream_items(self) -> (items: Vec<char>) {
        let text = self.as_str();
        let n: usize = text.unicode_len();
        let mut items: Vec<char> = Vec::new();
        let mut i: usize = 0;
        while i < n
            invariant
                i <= n,
                n == text@.len(),
                items@ == text@.take(i as int),
            decreases n - i,
        {
            items.push(text.get_char(i));
            i = i + 1;
            assert(items@ =~= text@.take(i as int));
        }
        assert(items@ =~= self@);
        items
    }
}

impl StreamIterable<u8> for String {
    open spec fn items(&self) -> Seq<u8> {
        vstd::utf8::encode_utf8(self@)
    }

    fn into_stream_items(self) -> (items: Vec<u8>) {
        self.as_str().as_bytes_vec()
    }
}

/// The operator.
pub struct FlatMapIterableStream<T, R> {
    collector: Collector<R>,
    takes: PhantomData<T>,
}

/// The items as messages, every one under the same context.
pub open spec fn item_messages<R>(items: Seq<R>, context: MessageContext) -> Seq<Collected<R>> {
    Seq::new(items.len(), |i: int| Collected { context, value: items[i] })
}

impl<T, R> FlatMapIterableStream<T, R> {
    /// The stream that the operator writes to.
    pub closed spec fn spec_output(&self) -> Stream<R> {
        self.collector.spec_stream()
    }

    /// Puts the operator behind `source`.
    pub fn make(
        config: &FlatMapIterableStreamConfig,
        source: &Stream<T>,
        environment: &mut RuntimeEnvironment,
    ) -> (result: RuntimeResult<(Stream<R>, FlatMapIterableStream<T, R>)>)
        requires
            source.belongs(old(environment)@),
        ensures
            attached(
                *source,
                old(environment)@,
                old(environment)@.with_stream(
                    config.stream.id,
                    config.stream.id,
                    config.stream.name@,
                    None,
                ),
                config.stream.id,
                final(environment)@,
                result,
            ),
            result matches Ok((output, operator)) ==> {
                &&& output.newest(final(environment)@)
                &&& output.spec_id() == config.stream.id
                &&& operator.spec_output() == output
            },
    {
        let output: Stream<R> = Stream::new(&config.stream, environment);
        let operator = Self::from_collector(output.collector());
        match source.try_set_consumer(environment, output.id()) {
            Ok(_) => Ok((output, operator)),
            Err(error) => Err(error),
        }
    }

    /// The operator that writes to a given collector.
    pub fn from_collector(collector: Collector<R>) -> (operator: FlatMapIterableStream<T, R>)
        ensures
            operator.spec_output() == collector.spec_stream(),
    {
        FlatMapIterableStream { collector, takes: PhantomData }
    }

    /// Writes the items of a value, in their order and each under the context of the
    /// value.
    pub fn emit(&self, context: MessageContext, value: T) -> (emissions: Vec<
        Emission<R>,
    >) where T: StreamIterable<R>
        ensures
            emitted(emissions@, self.spec_output(), item_messages(value.items(), context)),
    {
        let ghost whole = value.items();
        let items = value.into_stream_items();
        let mut collected: Vec<Collected<R>> = Vec::new();
        for item in iter: items
            invariant
                iter.seq() == whole,
                collected@.len() == iter.index(),
                forall|k: int|
                    0 <= k < collected@.len() ==> #[trigger] collected@[k] == (Collected {
                        context,
                        value: whole[k],
                    }),
        {
            collected.push(Collected { context: context.clone(), value: item });
        }
        assert(collected@ =~= item_messages(whole, context));
        self.collector.out_all(collected)
    }

    /// Takes a value apart and writes its items. A value that others hold too is
    /// cloned first.
    pub fn consume(&self, context: MessageContext, payload: Payload<T>) -> (emissions: Vec<
        Emission<R>,
    >) where T: StreamIterable<R> + Clone
        ensures
            exists|value: T|
                taken_from(payload@, value) && #[trigger] emitted(
                    emissions@,
                    self.spec_output(),
                    item_messages(value.items(), context),
                ),
    {
        let value = payload.into_value();
        self.emit(context, value)
    }
}

impl<T> Stream<T> {
    /// Puts the operator behind this stream.
    pub fn flat_map_iterable<R>(
        &self,
        config: &FlatMapIterableStreamConfig,
        environment: &mut RuntimeEnvironment,
    ) -> (result: RuntimeResult<(Stream<R>, FlatMapIterableStream<T, R>)>)
        requires
            self.belongs(old(environment)@),
        ensures
            attached(
                *self,
                old(environment)@,
                old(environment)@.with_stream(
                    config.stream.id,
                    config.stream.id,
                    config.stream.name@,
                    None,
                ),
                config.stream.id,
                final(environment)@,
                result,
            ),
            result matches Ok((output, operator)) ==> {
                &&& output.newest(final(environment)@)
                &&& output.spec_id() == config.stream.id
                &&& operator.spec_output() == output
            },
    {
        FlatMapIterableStream::make(config, self, environment)
    }
}

/// Every item becomes one message, in the order of the items and under the context of the
/// value that they came from.
pub proof fn law_every_item_is_a_message<R>(items: Seq<R>, context: MessageContext, index: int)
    requires
        0 <= index < items.len(),
    ensures
        item_messages(items, context).len() == items.len(),
        item_messages(items, context)[index].value == items[index],
        item_messages(items, context)[index].context == context,
{
}

/// The items of a list are its elements, and those of a text its characters or its bytes, in
/// their order.
pub proof fn law_items_are_in_order<R>(list: Vec<R>, text: String)
    ensures
        StreamIterable::<R>::items(&list) == list@,
        StreamIterable::<char>::items(&text) == text@,
        StreamIterable::<u8>::items(&text) == vstd::utf8::encode_utf8(text@),
{
}

} // verus!
