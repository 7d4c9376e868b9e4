//! What the endpoints of all sources share.
use vstd::prelude::*;

use crate::datasource::delivery::{session_of, DeliveryPhase, ResultDelivery};
use crate::operators::input::{endpoint_of, input_endpoint, InputStream};
use crate::runtime::common::MessageContext;
use crate::runtime::environment::{EnvironmentView, RuntimeEnvironment};
use crate::runtime::error::{RuntimeErrorView, RuntimeResult};
use crate::runtime::lookup::Side;
use crate::runtime::metrics::{endpoint_scope, is_endpoint_scope, MetricScope};
use crate::runtime::request::Metric;
use crate::runtime::store::PendingTable;

verus! {

/// The endpoint of a source: the stream of its input, its metrics and its pending
/// requests.
pub struct SourceEndpoint {
    pub input: i32,
    pub endpoint_name: String,
    pub scope: MetricScope,
    pub pending: PendingTable,
}

impl SourceEndpoint {
    /// An endpoint that has served nothing yet.
    pub open spec fn is_new(
        &self,
        input: i32,
        connector: Seq<char>,
        endpoint: Seq<char>,
        protocol: Seq<char>,
    ) -> bool {
        &&& self.input == input
        &&& self.endpoint_name@ == endpoint
        &&& is_endpoint_scope(self.scope, Side::Input, connector, endpoint, Some(protocol))
        &&& self.pending.wf()
        &&& self.pending@ == Map::<Seq<char>, u64>::empty()
        &&& self.pending.spec_next() == 0
    }

    /// The endpoint that the configuration gives to the input.
    pub fn id(&self, environment: &RuntimeEnvironment) -> (id: i32)
        ensures
            id == input_endpoint(environment@.config, self.input),
    {
        endpoint_of(self.input, environment)
    }

    /// Begins to deliver a result that came back from the graph to the request that it
    /// belongs to.
    pub fn consume_result(&self, context: &MessageContext) -> (begun: (
        ResultDelivery,
        Option<Metric>,
    ))
        requires
            self.pending.wf(),
        ensures
            match session_of(self.pending, *context) {
                Ok((id, token)) => {
                    &&& begun.0.phase matches DeliveryPhase::Holding { session } && session.stream_id@
                        == id && session.token == token
                    &&& begun.1 is None
                },
                Err(metric) => begun.0.phase is Finished && begun.1 == Some(metric),
            },
    {
        ResultDelivery::begin(&self.pending, context)
    }

    /// Takes a request out of the pending ones.
    pub fn forget(&mut self, stream_id: &str) -> (token: Option<u64>)
        requires
            old(self).pending.wf(),
        ensures
            final(self).pending.wf(),
            final(self).pending@ == old(self).pending@.remove(stream_id@),
            final(self).pending.spec_next() == old(self).pending.spec_next(),
            final(self).input == old(self).input,
            final(self).endpoint_name == old(self).endpoint_name,
            final(self).scope == old(self).scope,
            token == (if old(self).pending@.contains_key(stream_id@) {
                Some(old(self).pending@[stream_id@])
            } else {
                None
            }),
    {
        self.pending.pop(stream_id)
    }
}

/// The graph once an endpoint was attached to the input stream `input`: its pending
/// requests are a storage of the service where `storage` holds, and the endpoint is
/// known as a consumer.
pub open spec fn with_endpoint(
    graph: EnvironmentView,
    input: i32,
    endpoint: i32,
    storage: bool,
) -> EnvironmentView {
    (if storage {
        graph.with_storage(input)
    } else {
        graph
    }).with_consumer(endpoint)
}

/// What setting up an endpoint came to outside of the graph: its instruments, and
/// then its registration with the service.
pub struct SetUp {
    pub instruments: RuntimeResult<()>,
    pub registration: RuntimeResult<()>,
}

impl SetUp {
    /// Why the endpoint is not made, if it is not.
    pub open spec fn failure(&self) -> Option<RuntimeErrorView> {
        match (self.instruments, self.registration) {
            (Err(error), _) => Some(error@),
            (Ok(_), Err(error)) => Some(error@),
            (Ok(_), Ok(_)) => None,
        }
    }

    /// The graph once an endpoint was attached to the input stream `input`, as far as
    /// that came. An endpoint that is not registered leaves its storage behind; one
    /// without instruments leaves nothing.
    pub open spec fn graph(
        &self,
        before: EnvironmentView,
        input: i32,
        endpoint: i32,
        storage: bool,
    ) -> EnvironmentView {
        if self.instruments is Err {
            before
        } else if self.registration is Err {
            if storage {
                before.with_storage(input)
            } else {
                before
            }
        } else {
            with_endpoint(before, input, endpoint, storage)
        }
    }

    /// Where the results of the input go then. `wanted` tells whether they go to the
    /// endpoint, `last` whether that is settled only once the endpoint is registered.
    pub open spec fn results(
        &self,
        before: Option<i32>,
        endpoint: i32,
        wanted: bool,
        last: bool,
    ) -> Option<i32> {
        if wanted && self.instruments is Ok && (!last || self.registration is Ok) {
            Some(endpoint)
        } else {
            before
        }
    }

    /// All went well.
    pub fn ready() -> (set_up: SetUp)
        ensures
            set_up.instruments is Ok,
            set_up.registration is Ok,
    {
        SetUp { instruments: Ok(()), registration: Ok(()) }
    }
}

/// Makes the endpoint of an input and attaches it. Results come back to the endpoint
/// where the input has a result stream or, where `always_results` holds, in any case
/// once the endpoint is registered; the pending requests of an input with a result
/// stream are a storage where `keeps_storage` holds.
pub(crate) fn attach_endpoint<T, R, E>(
    input: &mut InputStream<T, R, E, i32>,
    connector: &str,
    endpoint: &str,
    protocol: &str,
    keeps_storage: bool,
    always_results: bool,
    environment: &mut RuntimeEnvironment,
    set_up: SetUp,
) -> (made: RuntimeResult<SourceEndpoint>)
    ensures
        ({
            let id = old(input).spec_stream().spec_id();
            let endpoint_id = input_endpoint(old(environment)@.config, id);
            let has_result = old(input).spec_result_source() is Some;
            &&& match made {
                Ok(base) => {
                    &&& set_up.failure() is None
                    &&& base.is_new(id, connector@, endpoint@, protocol@)
                },
                Err(error) => set_up.failure() == Some(error@),
            }
            &&& final(environment)@ == set_up.graph(
                old(environment)@,
                id,
                endpoint_id,
                keeps_storage && has_result,
            )
            &&& final(input).spec_result_consumer() == set_up.results(
                old(input).spec_result_consumer(),
                endpoint_id,
                has_result || always_results,
                always_results,
            )
        }),
        final(input).spec_stream() == old(input).spec_stream(),
        final(input).spec_error_stream() == old(input).spec_error_stream(),
        final(input).spec_result_source() == old(input).spec_result_source(),
{
    let endpoint_id: i32 = input.endpoint_id(environment);
    let has_result: bool = input.result_stream().is_some();
    match set_up.instruments {
        Ok(_) => {},
        Err(error) => return Err(error),
    }
    let scope = endpoint_scope(Side::Input, connector, endpoint, Some(protocol));
    if has_result && !always_results {
        input.set_result_consumer(endpoint_id);
    }
    if keeps_storage && has_result {
        environment.register_storage(input.stream().id());
    }
    match set_up.registration {
        Ok(_) => {},
        Err(error) => return Err(error),
    }
    environment.register_endpoint_consumer(endpoint_id);
    if always_results {
        input.set_result_consumer(endpoint_id);
    }
    Ok(
        SourceEndpoint {
            input: input.stream().id(),
            endpoint_name: endpoint.to_owned(),
            scope,
            pending: PendingTable::new(),
        },
    )
}

/// An endpoint is made if and only if both parts of its set-up went well, and refused with the
/// first failure. Without instruments nothing is left behind; without a registration the
/// storage of its pending requests is, but no consumer; else both are there, the consumer last.
pub proof fn law_set_up_leaves_what_it_came_to(
    set_up: SetUp,
    before: EnvironmentView,
    input: i32,
    endpoint: i32,
    storage: bool,
)
    ensures
        ({
            let after = set_up.graph(before, input, endpoint, storage);
            let kept = storage && set_up.instruments is Ok;
            &&& set_up.failure() is None <==> set_up.instruments is Ok && set_up.registration is Ok
            &&& set_up.instruments matches Err(error) ==> set_up.failure() == Some(error@)
            &&& set_up.instruments is Ok ==> (set_up.registration matches Err(error)
                ==> set_up.failure() == Some(error@))
            &&& set_up.instruments is Err ==> after == before
            &&& after.storages == (if kept {
                before.storages.push(input)
            } else {
                before.storages
            })
            &&& after.consumers == (if set_up.failure() is None {
                before.consumers.push(endpoint)
            } else {
                before.consumers
            })
            &&& after.nodes == before.nodes
            &&& after.links == before.links
            &&& after.config == before.config
        }),
{
}

/// Results go to an endpoint only if it wants them and has its instruments and, where that is
/// settled last, is registered; else they go where they went before.
pub proof fn law_results_go_to_a_set_up_endpoint(
    set_up: SetUp,
    before: Option<i32>,
    endpoint: i32,
    wanted: bool,
    last: bool,
)
    ensures
        ({
            let after = set_up.results(before, endpoint, wanted, last);
            let settled = set_up.instruments is Ok && (last ==> set_up.registration is Ok);
            &&& wanted && settled ==> after == Some(endpoint)
            &&& !wanted || !settled ==> after == before
            &&& wanted && set_up.failure() is None ==> after == Some(endpoint)
        }),
{
}

/// A new endpoint belongs to its input, goes by its name, and has no pending requests; its
/// metrics are those of its connector, name and protocol.
pub proof fn law_new_endpoints_have_no_requests(
    endpoint: SourceEndpoint,
    input: i32,
    connector: Seq<char>,
    name: Seq<char>,
    protocol: Seq<char>,
    id: Seq<char>,
)
    requires
        endpoint.is_new(input, connector, name, protocol),
    ensures
        endpoint.input == input,
        endpoint.endpoint_name@ == name,
        endpoint.pending.wf(),
        !endpoint.pending@.contains_key(id),
        endpoint.scope.name@ == "datasource_endpoint"@,
        endpoint.scope.labels@.len() == 3,
        endpoint.scope.labels@[0].1@ == connector,
        endpoint.scope.labels@[1].1@ == name,
        endpoint.scope.labels@[2].1@ == protocol,
{
}

} // verus!
