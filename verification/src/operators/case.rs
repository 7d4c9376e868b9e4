//! Case: a function picks the branch that a message takes.
use std::marker::PhantomData;
use std::sync::Arc;

use vstd::prelude::*;
use vstd::string::*;

use crate::runtime::common::{another_handle, Emission, MessageContext, Payload};
use crate::runtime::config::{CaseStreamConfig, WhenStreamConfig};
use crate::runtime::environment::RuntimeEnvironment;
use crate::runtime::error::{RuntimeError, RuntimeErrorView, RuntimeResult};
use crate::runtime::stream::{attached, Collector, Stream};
use crate::runtime::text::{integer, integer_text, natural, natural_text};

verus! {

/// Picks the branch of a value, by its number. Services implement it.
pub trait BuildSwitchFunction<T> {
    fn select(&self, value: &T) -> usize;
}

/// A branch of a case.
pub trait When<T> {
    /// The stream of the branch.
    spec fn branch(&self) -> Stream<T>;

    fn stream(&self) -> (stream: Stream<T>)
        ensures
            stream == self.branch(),
    ;

    /// Writes a message to the branch as it is.
    fn consume_case(&self, context: MessageContext, value: Payload<T>) -> (emission: Emission<T>)
        ensures
            emission == (Emission { stream: self.branch(), context, payload: value }),
    ;
}

/// A branch that is a stream.
pub struct WhenStream<T> {
    output: Stream<T>,
}

impl<T> When<T> for WhenStream<T> {
    closed spec fn branch(&self) -> Stream<T> {
        self.output
    }

    fn stream(&self) -> (stream: Stream<T>) {
        self.output
    }

    fn consume_case(&self, context: MessageContext, value: Payload<T>) -> (emission: Emission<T>) {
        self.output.collector().out_payload(context, value)
    }
}

/// The branches of a case, in their order.
pub trait CaseBranches<T> {
    spec fn branches(&self) -> Seq<Stream<T>>;

    fn len(&self) -> (count: usize)
        requires
            self.branches().len() <= usize::MAX,
        ensures
            count == self.branches().len(),
    ;

    fn is_empty(&self) -> (empty: bool)
        ensures
            empty == (self.branches().len() == 0),
    ;

    /// The stream of a branch, if there is one with that number.
    fn stream(&self, index: usize) -> (stream: Option<Stream<T>>)
        ensures
            stream == (if index < self.branches().len() {
                Some(self.branches()[index as int])
            } else {
                None
            }),
    ;

    /// Writes a message to a branch as it is.
    fn consume_case(&self, index: usize, context: MessageContext, value: Payload<T>) -> (emission:
        Emission<T>)
        requires
            index < self.branches().len(),
        ensures
            emission == (Emission {
                stream: self.branches()[index as int],
                context,
                payload: value,
            }),
    ;
}

impl<T> CaseBranches<T> for Vec<WhenStream<T>> {
    open spec fn branches(&self) -> Seq<Stream<T>> {
        Seq::new(self@.len(), |i: int| self@[i].branch())
    }

    fn len(&self) -> (count: usize) {
        Vec::len(self)
    }

    fn is_empty(&self) -> (empty: bool) {
        Vec::len(self) == 0
    }

    fn stream(&self, index: usize) -> (stream: Option<Stream<T>>) {
        if index < Vec::len(self) {
            Some(self[index].stream())
        } else {
            None
        }
    }

    fn consume_case(&self, index: usize, context: MessageContext, value: Payload<T>) -> (emission:
        Emission<T>) {
        self[index].consume_case(context, value)
    }
}

impl<T> CaseBranches<T> for () {
    open spec fn branches(&self) -> Seq<Stream<T>> {
        Seq::empty()
    }

    fn len(&self) -> (count: usize) {
        0
    }

    fn is_empty(&self) -> (empty: bool) {
        true
    }

    fn stream(&self, index: usize) -> (stream: Option<Stream<T>>) {
        None
    }

    fn consume_case(&self, index: usize, context: MessageContext, value: Payload<T>) -> (emission:
        Emission<T>) {
        vstd::pervasive::unreached()
    }
}

impl<T, Rest: CaseBranches<T>> CaseBranches<T> for (Collector<T>, Rest) {
    open spec fn branches(&self) -> Seq<Stream<T>> {
        Seq::empty().push(self.0.spec_stream()) + self.1.branches()
    }

    fn len(&self) -> (count: usize) {
        1 + self.1.len()
    }

    fn is_empty(&self) -> (empty: bool) {
        false
    }

    fn stream(&self, index: usize) -> (stream: Option<Stream<T>>) {
        if index == 0 {
            Some(*self.0.stream())
        } else {
            self.1.stream(index - 1)
        }
    }

    fn consume_case(&self, index: usize, context: MessageContext, value: Payload<T>) -> (emission:
        Emission<T>) {
        if index == 0 {
            self.0.out_payload(context, value)
        } else {
            self.1.consume_case(index - 1, context, value)
        }
    }
}

/// The operator. `B` holds its branches.
pub struct CaseStream<T, F, B> {
    selector: Arc<F>,
    when_streams: B,
    takes: PhantomData<T>,
}

impl<T, F, B> CaseStream<T, F, B> {
    pub closed spec fn spec_selector(&self) -> F {
        *self.selector
    }

    pub closed spec fn spec_branches(&self) -> B {
        self.when_streams
    }
}

impl<T, F> CaseStream<T, F, Vec<WhenStream<T>>> {
    /// Puts the operator, without branches yet, behind `source`.
    pub fn make(
        config: &CaseStreamConfig,
        source: &Stream<T>,
        selector: F,
        environment: &mut RuntimeEnvironment,
    ) -> (result: RuntimeResult<CaseStream<T, F, Vec<WhenStream<T>>>>)
        requires
            source.belongs(old(environment)@),
        ensures
            attached(
                *source,
                old(environment)@,
                old(environment)@.with_registered(config.stream.id),
                config.stream.id,
                final(environment)@,
                result,
            ),
            result matches Ok(case_stream) ==> {
                &&& case_stream.spec_selector() == selector
                &&& case_stream.spec_branches()@.len() == 0
            },
    {
        let case_stream = Self::create(config, selector, environment);
        match source.try_set_consumer(environment, config.stream.id) {
            Ok(_) => Ok(case_stream),
            Err(error) => Err(error),
        }
    }

    fn create(config: &CaseStreamConfig, selector: F, environment: &mut RuntimeEnvironment) -> (
        case_stream: CaseStream<T, F, Vec<WhenStream<T>>>)
        ensures
            final(environment)@ == old(environment)@.with_registered(config.stream.id),
            case_stream.spec_selector() == selector,
            case_stream.spec_branches()@.len() == 0,
    {
        environment.register_runtime_stream(config.stream.id);
        CaseStream {
            selector: Arc::new(selector),
            when_streams: Vec::new(),
            takes: PhantomData,
        }
    }
}

impl<T, F, B: CaseBranches<T>> CaseStream<T, F, B> {
    /// Writes a message to the branch that was picked. `None` where there is no such
    /// branch.
    pub fn emit(&self, index: usize, context: MessageContext, payload: Payload<T>) -> (emission:
        Option<Emission<T>>)
        ensures
            emission == (if index < self.spec_branches().branches().len() {
                Some(
                    Emission {
                        stream: self.spec_branches().branches()[index as int],
                        context,
                        payload,
                    },
                )
            } else {
                None
            }),
    {
        match self.when_streams.stream(index) {
            Some(_) => Some(self.when_streams.consume_case(index, context, payload)),
            None => None,
        }
    }

    /// Asks the selector about the value, once, and writes the message as it is to the
    /// branch that it picks. A selector that picks a branch which does not exist is at
    /// fault: no branch gets the message, and what to say of the fault is handed back.
    pub fn consume(&self, context: MessageContext, payload: Payload<T>) -> (result: Result<
        Emission<T>,
        String,
    >) where F: BuildSwitchFunction<T>
        ensures
            ({
                let branches = self.spec_branches().branches();
                exists|index: usize|
                    #[trigger] call_ensures(
                        F::select,
                        (&self.spec_selector(), &payload@),
                        index,
                    ) && (match result {
                        Ok(emission) => {
                            &&& index < branches.len()
                            &&& emission == (Emission {
                                stream: branches[index as int],
                                context,
                                payload,
                            })
                        },
                        Err(text) => {
                            &&& index >= branches.len()
                            &&& text@ == missing_branch_text(index as nat, branches.len())
                        },
                    })
            }),
    {
        let index: usize = self.selector.select(payload.get());
        match self.emit(index, context, payload) {
            Some(emission) => Ok(emission),
            None => Err(missing_branch(index, self.when_streams.len())),
        }
    }
}

/// The message for a selector that picked a branch which does not exist.
pub open spec fn missing_branch_text(index: nat, count: nat) -> Seq<char> {
    "case selector returned branch "@ + natural_text(index) + ", but only "@ + natural_text(count)
        + " branches exist"@
}

/// The message for a selector that picked branch `index` of `count`.
pub fn missing_branch(index: usize, count: usize) -> (text: String)
    ensures
        text@ == missing_branch_text(index as nat, count as nat),
{
    let mut text = String::from_str("case selector returned branch ");
    text.append(natural(index as u64).as_str());
    text.append(", but only ");
    text.append(natural(count as u64).as_str());
    text.append(" branches exist");
    text
}

/// A case whose branches are being registered.
pub struct TypedCaseStream<T, F> {
    inner: CaseStream<T, F, Vec<WhenStream<T>>>,
    id: i32,
}

/// The message for branches that are not those that were registered.
pub open spec fn branches_text(id: i32) -> Seq<char> {
    "case "@ + integer_text(id as int)
        + " typed branches must match the registered When streams in order"@
}

/// Whether branches are those that were registered, in their order.
pub open spec fn branches_match<T>(registered: Seq<Stream<T>>, given: Seq<Stream<T>>) -> bool {
    &&& registered.len() == given.len()
    &&& forall|i: int|
        0 <= i < registered.len() ==> (#[trigger] registered[i]).spec_id() == given[i].spec_id()
}

impl<T, F> TypedCaseStream<T, F> {
    pub closed spec fn spec_id(&self) -> i32 {
        self.id
    }

    pub closed spec fn spec_selector(&self) -> F {
        self.inner.spec_selector()
    }

    /// The branches that were registered.
    pub closed spec fn spec_branches(&self) -> Seq<Stream<T>> {
        self.inner.spec_branches().branches()
    }

    /// The case without branches, and without a source.
    pub fn create_links(
        config: &CaseStreamConfig,
        selector: F,
        environment: &mut RuntimeEnvironment,
    ) -> (case_stream: TypedCaseStream<T, F>)
        ensures
            final(environment)@ == old(environment)@.with_registered(config.stream.id),
            case_stream.spec_id() == config.stream.id,
            case_stream.spec_selector() == selector,
            case_stream.spec_branches() == Seq::<Stream<T>>::empty(),
    {
        let inner = CaseStream::create(config, selector, environment);
        assert(inner.spec_branches().branches() =~= Seq::<Stream<T>>::empty());
        TypedCaseStream { inner, id: config.stream.id }
    }

    /// The operator with given branches, which must be those that were registered, in
    /// their order.
    pub fn from_branches<B: CaseBranches<T>>(&self, branches: B) -> (result: RuntimeResult<
        CaseStream<T, F, B>,
    >)
        requires
            branches.branches().len() <= usize::MAX,
        ensures
            match result {
                Ok(case_stream) => {
                    &&& branches_match(self.spec_branches(), branches.branches())
                    &&& case_stream.spec_selector() == self.spec_selector()
                    &&& case_stream.spec_branches() == branches
                },
                Err(error) => {
                    &&& !branches_match(self.spec_branches(), branches.branches())
                    &&& error@ == RuntimeErrorView::InvalidConfiguration(
                        branches_text(self.spec_id()),
                    )
                },
            },
    {
        let ghost registered = self.spec_branches();
        let ghost given = branches.branches();
        let count: usize = Vec::len(&self.inner.when_streams);
        let mut same: bool = count == branches.len();
        let mut i: usize = 0;
        while same && i < count
            invariant
                i <= count,
                count == registered.len(),
                count == self.inner.when_streams@.len(),
                registered == self.spec_branches(),
                given == branches.branches(),
                same ==> count == given.len(),
                same ==> forall|k: int|
                    0 <= k < i ==> (#[trigger] registered[k]).spec_id() == given[k].spec_id(),
                !same ==> !branches_match(registered, given),
            decreases
                count - i + (if same {
                    1int
                } else {
                    0
                }),
        {
            let expected: i32 = self.inner.when_streams[i].stream().id();
            let found: bool = match branches.stream(i) {
                Some(stream) => stream.id() == expected,
                None => false,
            };
            if !found {
                assert(registered[i as int].spec_id() != given[i as int].spec_id());
                same = false;
            } else {
                i = i + 1;
            }
        }
        if !same {
            let mut text = String::from_str("case ");
            text.append(integer(self.id).as_str());
            text.append(" typed branches must match the registered When streams in order");
            return Err(RuntimeError::InvalidConfiguration(text));
        }
        Ok(
            CaseStream {
                selector: another_handle(&self.inner.selector),
                when_streams: branches,
                takes: PhantomData,
            },
        )
    }

    /// Registers the next branch.
    pub fn when(&mut self, config: &WhenStreamConfig, environment: &mut RuntimeEnvironment) -> (
        output: Stream<T>)
        ensures
            final(environment)@ == old(environment)@.with_stream(
                config.stream.id,
                config.stream.id,
                config.stream.name@,
                None,
            ).with_edge(old(self).spec_id(), config.stream.id),
            output.newest(final(environment)@),
            output.spec_id() == config.stream.id,
            final(self).spec_id() == old(self).spec_id(),
            final(self).spec_selector() == old(self).spec_selector(),
            final(self).spec_branches() == old(self).spec_branches().push(output),
    {
        let output: Stream<T> = Stream::new(&config.stream, environment);
        environment.register_graph_link(self.id, config.stream.id);
        self.inner.when_streams.push(WhenStream { output });
        assert(self.spec_branches() =~= old(self).spec_branches().push(output));
        output
    }

    /// How many branches were registered.
    pub fn len(&self) -> (count: usize)
        ensures
            count == self.spec_branches().len(),
    {
        Vec::len(&self.inner.when_streams)
    }

    pub fn is_empty(&self) -> (empty: bool)
        ensures
            empty == (self.spec_branches().len() == 0),
    {
        self.len() == 0
    }

    /// Asks the selector about a value and writes the message to the branch that it
    /// picks.
    pub fn consume(&self, context: MessageContext, payload: Payload<T>) -> (result: Result<
        Emission<T>,
        String,
    >) where F: BuildSwitchFunction<T>
        ensures
            ({
                let branches = self.spec_branches();
                exists|index: usize|
                    #[trigger] call_ensures(
                        F::select,
                        (&self.spec_selector(), &payload@),
                        index,
                    ) && (match result {
                        Ok(emission) => {
                            &&& index < branches.len()
                            &&& emission == (Emission {
                                stream: branches[index as int],
                                context,
                                payload,
                            })
                        },
                        Err(text) => {
                            &&& index >= branches.len()
                            &&& text@ == missing_branch_text(index as nat, branches.len())
                        },
                    })
            }),
    {
        self.inner.consume(context, payload)
    }
}

impl<T> Stream<T> {
    /// Puts a case, without branches yet, behind this stream.
    pub fn case<F>(
        &self,
        config: &CaseStreamConfig,
        selector: F,
        environment: &mut RuntimeEnvironment,
    ) -> (result: RuntimeResult<TypedCaseStream<T, F>>)
        requires
            self.belongs(old(environment)@),
        ensures
            attached(
                *self,
                old(environment)@,
                old(environment)@.with_registered(config.stream.id),
                config.stream.id,
                final(environment)@,
                result,
            ),
            result matches Ok(case_stream) ==> {
                &&& case_stream.spec_id() == config.stream.id
                &&& case_stream.spec_selector() == selector
                &&& case_stream.spec_branches() == Seq::<Stream<T>>::empty()
            },
    {
        match CaseStream::make(config, self, selector, environment) {
            Ok(inner) => {
                assert(inner.spec_branches().branches() =~= Seq::<Stream<T>>::empty());
                Ok(TypedCaseStream { inner, id: config.stream.id })
            },
            Err(error) => Err(error),
        }
    }
}

/// Creates a case before its branches and its source.
pub fn create<T, F>(
    config: &CaseStreamConfig,
    selector: F,
    environment: &mut RuntimeEnvironment,
) -> (case_stream: TypedCaseStream<T, F>)
    ensures
        final(environment)@ == old(environment)@.with_registered(config.stream.id),
        case_stream.spec_id() == config.stream.id,
        case_stream.spec_selector() == selector,
        case_stream.spec_branches() == Seq::<Stream<T>>::empty(),
{
    TypedCaseStream::create_links(config, selector, environment)
}

/// Registers the next branch of a case.
pub fn when<T, F>(
    config: &WhenStreamConfig,
    source: &mut TypedCaseStream<T, F>,
    environment: &mut RuntimeEnvironment,
) -> (output: Stream<T>)
    ensures
        final(environment)@ == old(environment)@.with_stream(
            config.stream.id,
            config.stream.id,
            config.stream.name@,
            None,
        ).with_edge(old(source).spec_id(), config.stream.id),
        output.newest(final(environment)@),
        output.spec_id() == config.stream.id,
        final(source).spec_id() == old(source).spec_id(),
        final(source).spec_selector() == old(source).spec_selector(),
        final(source).spec_branches() == old(source).spec_branches().push(output),
{
    source.when(config, environment)
}

/// Branches are those that were registered if and only if there are as many of them and each
/// stands under the id of the one in its place.
pub proof fn law_branches_match_in_order<T>(registered: Seq<Stream<T>>, given: Seq<Stream<T>>)
    ensures
        branches_match(registered, given) ==> registered.len() == given.len(),
        forall|i: int|
            branches_match(registered, given) && 0 <= i < registered.len() ==> (
            #[trigger] registered[i]).spec_id() == given[i].spec_id(),
        registered.len() == given.len() && (forall|i: int|
            0 <= i < registered.len() ==> (#[trigger] registered[i]).spec_id()
                == given[i].spec_id()) ==> branches_match(registered, given),
{
}

/// Branches that are chained keep their order: the first of a chain comes first, the others
/// follow as they are among themselves; registered branches are numbered as they were
/// registered.
pub proof fn law_branches_keep_their_order<T, Rest: CaseBranches<T>>(
    chain: (Collector<T>, Rest),
    registered: Vec<WhenStream<T>>,
    index: int,
)
    ensures
        chain.branches().len() == chain.1.branches().len() + 1,
        chain.branches()[0] == chain.0.spec_stream(),
        0 <= index < chain.1.branches().len() ==> chain.branches()[index + 1]
            == chain.1.branches()[index],
        registered.branches().len() == registered@.len(),
        0 <= index < registered@.len() ==> registered.branches()[index]
            == registered@[index].branch(),
{
}

} // verus!
