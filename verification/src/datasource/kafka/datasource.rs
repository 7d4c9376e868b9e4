//! The Kafka data source.
use rdkafka::ClientConfig;
use vstd::prelude::*;
use vstd::string::*;

use crate::datasink::kafka::datasink::{
    at_least_one, clamp_to_one, other_connector_text, NewTopicPlan,
};
use crate::datasink::kafka::settings::{
    new_client_config, no_parameters, parameters, set_parameter,
};
use crate::datasink::kafka::topics::{plan_views, planned, TopicView};
use crate::datasource::endpoint::SetUp;
use crate::datasource::kafka::consumer::{
    make_rdkafka_kafka_endpoint_consumer, RdkafkaKafkaTypedEndpointConsumer,
};
use crate::operators::input::{input_endpoint, InputStream};
use crate::runtime::config::{KafkaDataConnectorConfig, KafkaEndpointConfig};
use crate::runtime::environment::RuntimeEnvironment;
use crate::runtime::error::{RuntimeError, RuntimeErrorView, RuntimeResult};
use crate::runtime::lifecycle::{start_error, LifecycleState};
use crate::runtime::text::{
    blank, debug_text, integer, is_blank, natural, natural_text, quoted, same_text,
};

verus! {

/// The Kafka data source of a connector.
pub struct RdkafkaKafkaDataSource {
    pub config: KafkaDataConnectorConfig,
    pub endpoints: Vec<KafkaEndpointConfig>,
    pub state: LifecycleState,
}

/// The parameters that all clients of a connector have.
pub open spec fn client_parameters(config: KafkaDataConnectorConfig) -> Map<Seq<char>, Seq<char>> {
    let base = no_parameters().insert("bootstrap.servers"@, config.brokers@);
    if config.dial_timeout > 0 {
        base.insert("socket.timeout.ms"@, natural_text(config.dial_timeout as nat))
    } else {
        base
    }
}

/// The settings that all clients of a connector have.
pub fn make_client_config(config: &KafkaDataConnectorConfig) -> (client: ClientConfig)
    ensures
        parameters(client) == client_parameters(*config),
{
    let mut client = new_client_config();
    set_parameter(&mut client, "bootstrap.servers", config.brokers.as_str());
    if config.dial_timeout > 0 {
        set_parameter(&mut client, "socket.timeout.ms", natural(config.dial_timeout).as_str());
    }
    client
}

/// The parameters of an endpoint's consumer: offsets are stored by hand and
/// committed by themselves.
pub open spec fn consumer_parameters(
    config: KafkaDataConnectorConfig,
    endpoint: KafkaEndpointConfig,
) -> Map<Seq<char>, Seq<char>> {
    client_parameters(config).insert("group.id"@, endpoint.consumer_group@).insert(
        "auto.offset.reset"@,
        "earliest"@,
    ).insert("enable.auto.commit"@, "true"@).insert("enable.auto.offset.store"@, "false"@)
}

/// What is wrong with the configuration of an endpoint, if anything is.
pub open spec fn endpoint_fault(endpoint: KafkaEndpointConfig) -> Option<Seq<char>> {
    if blank(endpoint.topic@) {
        Some("no topic specified for Kafka endpoint "@ + debug_text(endpoint.name@))
    } else if blank(endpoint.consumer_group@) {
        Some("consumer group is not set for Kafka endpoint "@ + debug_text(endpoint.name@))
    } else {
        None
    }
}

/// The settings of an endpoint's consumer, or what is wrong with its configuration.
pub fn endpoint_client(config: &KafkaDataConnectorConfig, endpoint: &KafkaEndpointConfig) -> (result:
    Result<ClientConfig, String>)
    ensures
        match result {
            Ok(client) => {
                &&& endpoint_fault(*endpoint) is None
                &&& parameters(client) == consumer_parameters(*config, *endpoint)
            },
            Err(text) => endpoint_fault(*endpoint) == Some(text@),
        },
{
    if is_blank(endpoint.topic.as_str()) {
        let mut text = String::from_str("no topic specified for Kafka endpoint ");
        text.append(quoted(endpoint.name.as_str()).as_str());
        return Err(text);
    }
    if is_blank(endpoint.consumer_group.as_str()) {
        let mut text = String::from_str("consumer group is not set for Kafka endpoint ");
        text.append(quoted(endpoint.name.as_str()).as_str());
        return Err(text);
    }
    let mut client = make_client_config(config);
    set_parameter(&mut client, "group.id", endpoint.consumer_group.as_str());
    set_parameter(&mut client, "auto.offset.reset", "earliest");
    set_parameter(&mut client, "enable.auto.commit", "true");
    set_parameter(&mut client, "enable.auto.offset.store", "false");
    Ok(client)
}

/// The topics to create for the first `count` endpoints: each topic once, as the
/// first endpoint that asks for it has it.
pub open spec fn topics_for(endpoints: Seq<KafkaEndpointConfig>, count: int) -> Seq<TopicView>
    decreases count,
{
    if count <= 0 {
        Seq::empty()
    } else {
        let before = topics_for(endpoints, count - 1);
        let endpoint = endpoints[count - 1];
        if endpoint.create_topic && !planned(before, endpoint.topic@) {
            before.push(
                TopicView {
                    topic: endpoint.topic@,
                    partitions: at_least_one(endpoint.partitions),
                    replication: at_least_one(endpoint.replication_factor),
                },
            )
        } else {
            before
        }
    }
}

/// What comes after an endpoint was started, or could not be.
pub enum StartNext {
    /// The endpoint at the index is next.
    Start(usize),
    /// All endpoints run.
    Done,
    /// The endpoints are stopped again, in the order that is given, and the start
    /// fails.
    RollBack { stop: Vec<usize>, error: RuntimeError },
}

/// The numbers below `count`, from the highest down.
pub open spec fn descending(count: int) -> Seq<usize> {
    Seq::new(count as nat, |i: int| (count - 1 - i) as usize)
}

fn count_down(count: usize) -> (order: Vec<usize>)
    ensures
        order@ == descending(count as int),
{
    let mut order: Vec<usize> = Vec::new();
    let mut left: usize = count;
    while left > 0
        invariant
            left <= count,
            order@.len() == count - left,
            forall|i: int| 0 <= i < order@.len() ==> order@[i] == count - 1 - i,
        decreases left,
    {
        left = left - 1;
        order.push(left);
    }
    assert(order@ =~= descending(count as int));
    order
}

/// Whether an endpoint with the id is there.
pub open spec fn has_endpoint(endpoints: Seq<KafkaEndpointConfig>, id: i32) -> bool {
    exists|i: int| 0 <= i < endpoints.len() && (#[trigger] endpoints[i]).id == id
}

/// The first error among results.
pub open spec fn first_error(results: Seq<RuntimeResult<()>>) -> Option<RuntimeError>
    decreases results.len(),
{
    if results.len() == 0 {
        None
    } else if results[0] is Err {
        Some(results[0]->Err_0)
    } else {
        first_error(results.drop_first())
    }
}

impl RdkafkaKafkaDataSource {
    /// No endpoint occurs twice, and all belong to the connector.
    pub open spec fn wf(&self) -> bool {
        &&& forall|i: int, j: int|
            0 <= i < j < self.endpoints@.len() ==> (#[trigger] self.endpoints@[i]).id != (
            #[trigger] self.endpoints@[j]).id
        &&& forall|i: int|
            0 <= i < self.endpoints@.len() ==> (
            #[trigger] self.endpoints@[i]).id_data_connector == self.config.id
    }

    /// The data source of a connector, with the settings of its administration
    /// client. A connector needs brokers.
    pub fn new(config: KafkaDataConnectorConfig) -> (result: Result<
        (RdkafkaKafkaDataSource, ClientConfig),
        String,
    >)
        ensures
            match result {
                Ok((source, client)) => {
                    &&& !blank(config.brokers@)
                    &&& source.wf()
                    &&& source.config == config
                    &&& source.endpoints@.len() == 0
                    &&& source.state == LifecycleState::Idle
                    &&& parameters(client) == client_parameters(config)
                },
                Err(text) => {
                    &&& blank(config.brokers@)
                    &&& text@ == "no brokers specified for Kafka data connector "@ + debug_text(
                        config.name@,
                    )
                },
            },
    {
        if is_blank(config.brokers.as_str()) {
            let mut text = String::from_str("no brokers specified for Kafka data connector ");
            text.append(quoted(config.name.as_str()).as_str());
            return Err(text);
        }
        let client = make_client_config(&config);
        Ok(
            (
                RdkafkaKafkaDataSource {
                    config,
                    endpoints: Vec::new(),
                    state: LifecycleState::Idle,
                },
                client,
            ),
        )
    }

    /// Why an endpoint is refused before anything is made of it, if it is.
    pub open spec fn refusal(&self, endpoint: KafkaEndpointConfig) -> Option<RuntimeErrorView> {
        if endpoint.id_data_connector != self.config.id {
            Some(
                RuntimeErrorView::InvalidConfiguration(
                    other_connector_text(endpoint.name@, endpoint.id_data_connector, self.config.id),
                ),
            )
        } else if self.state != LifecycleState::Idle {
            Some(RuntimeErrorView::ResourceAlreadyStarted(self.config.name@))
        } else if has_endpoint(self.endpoints@, endpoint.id) {
            Some(RuntimeErrorView::DuplicateResource(endpoint.name@))
        } else {
            None
        }
    }

    fn check_endpoint(&self, endpoint: &KafkaEndpointConfig) -> (result: RuntimeResult<()>)
        ensures
            match result {
                Ok(_) => self.refusal(*endpoint) is None,
                Err(error) => self.refusal(*endpoint) == Some(error@),
            },
    {
        if endpoint.id_data_connector != self.config.id {
            let mut text = String::from_str("Kafka endpoint ");
            text.append(quoted(endpoint.name.as_str()).as_str());
            text.append(" references connector ");
            text.append(integer(endpoint.id_data_connector).as_str());
            text.append(", expected ");
            text.append(integer(self.config.id).as_str());
            return Err(RuntimeError::InvalidConfiguration(text));
        }
        if self.state != LifecycleState::Idle {
            return Err(RuntimeError::ResourceAlreadyStarted(self.config.name.clone()));
        }
        let mut i: usize = 0;
        while i < self.endpoints.len()
            invariant
                i <= self.endpoints@.len(),
                endpoint.id_data_connector == self.config.id,
                self.state == LifecycleState::Idle,
                forall|j: int|
                    0 <= j < i ==> (#[trigger] self.endpoints@[j]).id != endpoint.id,
            decreases self.endpoints@.len() - i,
        {
            if self.endpoints[i].id == endpoint.id {
                return Err(RuntimeError::DuplicateResource(endpoint.name.clone()));
            }
            i = i + 1;
        }
        Ok(())
    }

    /// Makes an endpoint of this data source, as long as it has not started, and hands
    /// back the settings of its consumer. An endpoint without a topic or a group is
    /// refused only after it was attached to its input.
    pub fn add_endpoint<T, R, E>(
        &mut self,
        input: &mut InputStream<T, R, E, i32>,
        endpoint_config: KafkaEndpointConfig,
        environment: &mut RuntimeEnvironment,
        set_up: SetUp,
    ) -> (result: RuntimeResult<(RdkafkaKafkaTypedEndpointConsumer, ClientConfig)>)
        requires
            old(self).wf(),
        ensures
            final(self).wf(),
            final(input).spec_stream() == old(input).spec_stream(),
            final(input).spec_error_stream() == old(input).spec_error_stream(),
            final(input).spec_result_source() == old(input).spec_result_source(),
            final(self).config == old(self).config,
            final(self).state == old(self).state,
            ({
                let id = old(input).spec_stream().spec_id();
                let endpoint_id = input_endpoint(old(environment)@.config, id);
                let has_result = old(input).spec_result_source() is Some;
                let grown = set_up.graph(old(environment)@, id, endpoint_id, has_result);
                let results = set_up.results(
                    old(input).spec_result_consumer(),
                    endpoint_id,
                    has_result,
                    false,
                );
                match (old(self).refusal(endpoint_config), set_up.failure()) {
                    (Some(error), _) => {
                        &&& result is Err
                        &&& result->Err_0@ == error
                        &&& final(environment)@ == old(environment)@
                        &&& final(self).endpoints@ == old(self).endpoints@
                        &&& final(input).spec_result_consumer() == old(
                            input,
                        ).spec_result_consumer()
                    },
                    (None, Some(error)) => {
                        &&& result is Err
                        &&& result->Err_0@ == error
                        &&& final(environment)@ == grown
                        &&& final(input).spec_result_consumer() == results
                        &&& final(self).endpoints@ == old(self).endpoints@
                    },
                    (None, None) => {
                        &&& final(environment)@ == grown
                        &&& final(input).spec_result_consumer() == results
                        &&& match endpoint_fault(endpoint_config) {
                            Some(text) => {
                                &&& result is Err
                                &&& result->Err_0@ == RuntimeErrorView::Transport(text)
                                &&& final(self).endpoints@ == old(self).endpoints@
                            },
                            None => {
                                &&& result matches Ok((consumer, client)) && {
                                    &&& consumer.base.is_new(
                                        id,
                                        old(self).config.name@,
                                        endpoint_config.name@,
                                        "kafka"@,
                                    )
                                    &&& parameters(client) == consumer_parameters(
                                        old(self).config,
                                        endpoint_config,
                                    )
                                    &&& consumer.concurrency.spec_active() == 0
                                    &&& !consumer.concurrency.spec_stopped()
                                }
                                &&& final(self).endpoints@ == old(self).endpoints@.push(
                                    endpoint_config,
                                )
                            },
                        }
                    },
                }
            }),
    {
        match self.check_endpoint(&endpoint_config) {
            Ok(_) => {},
            Err(error) => return Err(error),
        }
        let consumer = match make_rdkafka_kafka_endpoint_consumer(
            input,
            &endpoint_config,
            &self.config,
            environment,
            set_up,
        ) {
            Ok(consumer) => consumer,
            Err(error) => return Err(error),
        };
        let client = match endpoint_client(&self.config, &endpoint_config) {
            Ok(client) => client,
            Err(text) => return Err(RuntimeError::Transport(text)),
        };
        self.endpoints.push(endpoint_config);
        Ok((consumer, client))
    }

    /// Takes the endpoint that was added last out again, over a consumer that could not
    /// be made for it.
    pub fn give_up_endpoint(&mut self, reason: String) -> (error: RuntimeError)
        requires
            old(self).wf(),
            old(self).endpoints@.len() > 0,
        ensures
            error@ == RuntimeErrorView::Transport(reason@),
            final(self).wf(),
            final(self).endpoints@ == old(self).endpoints@.drop_last(),
            final(self).config == old(self).config,
            final(self).state == old(self).state,
    {
        let _endpoint = self.endpoints.pop();
        proof {
            assert(self.endpoints@ =~= old(self).endpoints@.drop_last());
            assert forall|i: int, j: int| 0 <= i < j < self.endpoints@.len() implies (
            #[trigger] self.endpoints@[i]).id != (#[trigger] self.endpoints@[j]).id by {
                assert(old(self).endpoints@[i].id != old(self).endpoints@[j].id);
            }
            assert forall|i: int| 0 <= i < self.endpoints@.len() implies (
            #[trigger] self.endpoints@[i]).id_data_connector == self.config.id by {
                assert(old(self).endpoints@[i].id_data_connector == old(self).config.id);
            }
        }
        RuntimeError::Transport(reason)
    }

    /// The topics to create before the endpoints start.
    pub fn topics_to_create(&self) -> (plans: Vec<NewTopicPlan>)
        ensures
            plan_views(plans@) == topics_for(self.endpoints@, self.endpoints@.len() as int),
    {
        let mut plans: Vec<NewTopicPlan> = Vec::new();
        let mut i: usize = 0;
        assert(plan_views(plans@) =~= topics_for(self.endpoints@, 0));
        while i < self.endpoints.len()
            invariant
                i <= self.endpoints@.len(),
                plan_views(plans@) == topics_for(self.endpoints@, i as int),
            decreases self.endpoints@.len() - i,
        {
            let endpoint = &self.endpoints[i];
            if endpoint.create_topic {
                let mut known: bool = false;
                let mut k: usize = 0;
                while k < plans.len()
                    invariant
                        k <= plans@.len(),
                        *endpoint == self.endpoints@[i as int],
                        plan_views(plans@) == topics_for(self.endpoints@, i as int),
                        known == (exists|j: int|
                            0 <= j < k && (#[trigger] plan_views(plans@)[j]).topic
                                == endpoint.topic@),
                    decreases plans@.len() - k,
                {
                    if same_text(plans[k].topic.as_str(), endpoint.topic.as_str()) {
                        assert(plan_views(plans@)[k as int].topic == endpoint.topic@);
                        known = true;
                    }
                    k = k + 1;
                }
                assert(known == planned(plan_views(plans@), endpoint.topic@));
                if !known {
                    plans.push(
                        NewTopicPlan {
                            topic: endpoint.topic.clone(),
                            partitions: clamp_to_one(endpoint.partitions),
                            replication: clamp_to_one(endpoint.replication_factor),
                        },
                    );
                }
            }
            assert(plan_views(plans@) =~= topics_for(self.endpoints@, i + 1));
            i = i + 1;
        }
        plans
    }

    /// Begins to start.
    pub fn begin_start(&mut self) -> (result: RuntimeResult<()>)
        ensures
            final(self).config == old(self).config,
            final(self).endpoints@ == old(self).endpoints@,
            match result {
                Ok(_) => {
                    &&& start_error(old(self).state, old(self).config.name@) is None
                    &&& final(self).state == LifecycleState::Running
                },
                Err(error) => {
                    &&& start_error(old(self).state, old(self).config.name@) == Some(error@)
                    &&& final(self).state == old(self).state
                },
            },
    {
        match self.state.check_start(&self.config.name) {
            Ok(_) => {
                self.state = LifecycleState::Running;
                Ok(())
            },
            Err(error) => Err(error),
        }
    }

    /// Gives the start up over a topic that could not be created. The data source may
    /// start again.
    pub fn give_up_start(&mut self, reason: String) -> (error: RuntimeError)
        ensures
            error@ == RuntimeErrorView::Transport(reason@),
            final(self).state == LifecycleState::Idle,
            final(self).config == old(self).config,
            final(self).endpoints@ == old(self).endpoints@,
    {
        self.state = LifecycleState::Idle;
        RuntimeError::Transport(reason)
    }

    /// Which endpoint starts first.
    pub fn first_endpoint(&self) -> (next: StartNext)
        ensures
            next == (if self.endpoints@.len() == 0 {
                StartNext::Done
            } else {
                StartNext::Start(0)
            }),
    {
        if self.endpoints.len() == 0 {
            StartNext::Done
        } else {
            StartNext::Start(0)
        }
    }

    /// Goes on once the endpoint at `index` was started, or could not be: then those
    /// that run are stopped, the last first.
    pub fn endpoint_started(&self, index: usize, result: RuntimeResult<()>) -> (next: StartNext)
        requires
            index < self.endpoints@.len(),
        ensures
            match result {
                Ok(_) => next == (if index + 1 < self.endpoints@.len() {
                    StartNext::Start((index + 1) as usize)
                } else {
                    StartNext::Done
                }),
                Err(error) => next matches StartNext::RollBack { stop, error: failed } && stop@
                    == descending(index as int) && failed == error,
            },
    {
        match result {
            Ok(_) => {
                if index < self.endpoints.len() - 1 {
                    StartNext::Start(index + 1)
                } else {
                    StartNext::Done
                }
            },
            Err(error) => StartNext::RollBack { stop: count_down(index), error },
        }
    }

    /// Ends a start that was rolled back, once the endpoints are stopped. The data source
    /// may start again.
    pub fn rolled_back(&mut self)
        ensures
            final(self).state == LifecycleState::Idle,
            final(self).config == old(self).config,
            final(self).endpoints@ == old(self).endpoints@,
    {
        self.state = LifecycleState::Idle;
    }

    /// Stops the data source for good and says which endpoints to stop, the last
    /// first. A second stop has nothing to do.
    pub fn stop(&mut self) -> (order: Option<Vec<usize>>)
        ensures
            final(self).config == old(self).config,
            final(self).endpoints@ == old(self).endpoints@,
            final(self).state == LifecycleState::Stopped,
            match order {
                Some(indices) => {
                    &&& old(self).state != LifecycleState::Stopped
                    &&& indices@ == descending(old(self).endpoints@.len() as int)
                },
                None => old(self).state == LifecycleState::Stopped,
            },
    {
        if self.state == LifecycleState::Stopped {
            return None;
        }
        self.state = LifecycleState::Stopped;
        Some(count_down(self.endpoints.len()))
    }

    /// What stopping the endpoints came to: all were stopped, and the first error is
    /// reported.
    pub fn stopped(results: Vec<RuntimeResult<()>>) -> (result: RuntimeResult<()>)
        ensures
            match result {
                Ok(_) => first_error(results@) is None,
                Err(error) => first_error(results@) == Some(error),
            },
    {
        let mut found: Option<RuntimeError> = None;
        for outcome in iter: results
            invariant
                iter.seq() == results@,
                found == first_error(results@.take(iter.index() as int)),
        {
            proof {
                let k = iter.index() as int;
                lemma_first_error_push(results@.take(k), results@[k]);
                assert(results@.take(k + 1) =~= results@.take(k).push(results@[k]));
            }
            match outcome {
                Ok(_) => {},
                Err(error) => {
                    if found.is_none() {
                        found = Some(error);
                    }
                },
            }
        }
        assert(results@.take(results@.len() as int) =~= results@);
        match found {
            Some(error) => Err(error),
            None => Ok(()),
        }
    }
}

proof fn lemma_first_error_push(results: Seq<RuntimeResult<()>>, last: RuntimeResult<()>)
    ensures
        first_error(results.push(last)) == (match first_error(results) {
            Some(error) => Some(error),
            None => if last is Err {
                Some(last->Err_0)
            } else {
                None
            },
        }),
    decreases results.len(),
{
    reveal_with_fuel(first_error, 2);
    if results.len() == 0 {
        assert(results.push(last).drop_first() =~= Seq::<RuntimeResult<()>>::empty());
    } else {
        lemma_first_error_push(results.drop_first(), last);
        assert(results.push(last).drop_first() =~= results.drop_first().push(last));
    }
}

/// A start that fails at an endpoint stops exactly the endpoints before it, each
/// once and in the reverse of the order in which they were started.
pub proof fn law_roll_back_reverses_start(index: int, a: int, b: int)
    requires
        0 <= a < b < index <= usize::MAX,
    ensures
        descending(index).len() == index,
        descending(index)[a] > descending(index)[b],
        descending(index)[index - 1 - a] == a,
        descending(index).contains(b as usize),
{
    assert(descending(index)[index - 1 - b] == b as usize);
}

/// The error that a stop reports is the first one, and it reports one if and only if there is
/// any.
pub proof fn law_first_error_is_reported(results: Seq<RuntimeResult<()>>)
    ensures
        match first_error(results) {
            Some(error) => exists|i: int|
                {
                    &&& 0 <= i < results.len()
                    &&& #[trigger] results[i] == Err::<(), RuntimeError>(error)
                    &&& forall|j: int| 0 <= j < i ==> (#[trigger] results[j]) is Ok
                },
            None => forall|j: int| 0 <= j < results.len() ==> (#[trigger] results[j]) is Ok,
        },
    decreases results.len(),
{
    if results.len() > 0 && results[0] is Ok {
        let rest = results.drop_first();
        law_first_error_is_reported(rest);
        assert forall|j: int| 0 < j < results.len() implies #[trigger] results[j] == rest[j - 1] by {}
        match first_error(rest) {
            Some(error) => {
                let i = choose|i: int|
                    {
                        &&& 0 <= i < rest.len()
                        &&& #[trigger] rest[i] == Err::<(), RuntimeError>(error)
                        &&& forall|j: int| 0 <= j < i ==> (#[trigger] rest[j]) is Ok
                    };
                assert(results[i + 1] == Err::<(), RuntimeError>(error));
                assert forall|j: int| 0 <= j < i + 1 implies (#[trigger] results[j]) is Ok by {
                    if j > 0 {
                        assert(rest[j - 1] is Ok);
                    }
                }
            },
            None => {
                assert forall|j: int| 0 <= j < results.len() implies (#[trigger] results[j])
                    is Ok by {
                    if j > 0 {
                        assert(rest[j - 1] is Ok);
                    }
                }
            },
        }
    }
}

/// No topic is created twice.
pub proof fn law_topics_are_created_once(
    endpoints: Seq<KafkaEndpointConfig>,
    count: int,
    a: int,
    b: int,
)
    requires
        0 <= count <= endpoints.len(),
        0 <= a < b < topics_for(endpoints, count).len(),
    ensures
        topics_for(endpoints, count)[a].topic != topics_for(endpoints, count)[b].topic,
    decreases count,
{
    if count > 0 {
        let before = topics_for(endpoints, count - 1);
        let plans = topics_for(endpoints, count);
        assert(plans[a] == before[a]);
        if b < before.len() {
            law_topics_are_created_once(endpoints, count - 1, a, b);
        } else {
            assert(plans[b].topic == endpoints[count - 1].topic@);
        }
    }
}

/// Every topic that an endpoint asks for is created.
pub proof fn law_asked_topics_are_created(
    endpoints: Seq<KafkaEndpointConfig>,
    count: int,
    index: int,
)
    requires
        0 <= index < count <= endpoints.len(),
        endpoints[index].create_topic,
    ensures
        planned(topics_for(endpoints, count), endpoints[index].topic@),
    decreases count,
{
    let topic = endpoints[index].topic@;
    let before = topics_for(endpoints, count - 1);
    let plans = topics_for(endpoints, count);
    if index < count - 1 {
        law_asked_topics_are_created(endpoints, count - 1, index);
    }
    if planned(before, topic) {
        let k = choose|k: int| 0 <= k < before.len() && (#[trigger] before[k]).topic == topic;
        assert(plans[k] == before[k]);
    } else {
        assert(plans.last().topic == topic);
    }
}

/// A topic is created only if an endpoint asks for it, and then as the first endpoint that
/// asks has it, with at least one partition and one replica.
pub proof fn law_topics_are_created_as_first_asked(
    endpoints: Seq<KafkaEndpointConfig>,
    count: int,
    k: int,
) -> (index: int)
    requires
        0 <= count <= endpoints.len(),
        0 <= k < topics_for(endpoints, count).len(),
    ensures
        0 <= index < count,
        plan_of(topics_for(endpoints, count)[k], endpoints, index),
    decreases count,
{
    let before = topics_for(endpoints, count - 1);
    let plans = topics_for(endpoints, count);
    let endpoint = endpoints[count - 1];
    if k < before.len() {
        assert(plans[k] == before[k]);
        law_topics_are_created_as_first_asked(endpoints, count - 1, k)
    } else {
        assert forall|j: int|
            0 <= j < count - 1 && (#[trigger] endpoints[j]).create_topic implies endpoints[j].topic@
            != endpoint.topic@ by {
            law_asked_topics_are_created(endpoints, count - 1, j);
        }
        assert(plans[k].topic == endpoint.topic@);
        count - 1
    }
}

/// Whether a topic is planned as the endpoint at `index` has it, which is the first to ask for
/// the topic.
pub open spec fn plan_of(
    plan: TopicView,
    endpoints: Seq<KafkaEndpointConfig>,
    index: int,
) -> bool {
    let endpoint = endpoints[index];
    &&& endpoint.create_topic
    &&& plan.topic == endpoint.topic@
    &&& plan.partitions >= 1 && plan.replication >= 1
    &&& endpoint.partitions >= 1 ==> plan.partitions == endpoint.partitions
    &&& endpoint.partitions < 1 ==> plan.partitions == 1
    &&& endpoint.replication_factor >= 1 ==> plan.replication == endpoint.replication_factor
    &&& endpoint.replication_factor < 1 ==> plan.replication == 1
    &&& forall|j: int|
        0 <= j < index && (#[trigger] endpoints[j]).create_topic ==> endpoints[j].topic@
            != plan.topic
}

/// An endpoint is taken by an idle data source of its own connector that does not have it yet,
/// and by no other; which of these fails first is what a refusal says.
pub proof fn law_endpoint_is_refused_for_a_reason(
    source: RdkafkaKafkaDataSource,
    endpoint: KafkaEndpointConfig,
)
    ensures
        ({
            let own = endpoint.id_data_connector == source.config.id;
            let idle = source.state == LifecycleState::Idle;
            let known = exists|i: int|
                0 <= i < source.endpoints@.len() && (#[trigger] source.endpoints@[i]).id
                    == endpoint.id;
            let refusal = source.refusal(endpoint);
            &&& refusal is None <==> own && idle && !known
            &&& !own ==> refusal is Some && refusal->0 is InvalidConfiguration
            &&& own && !idle ==> refusal == Some(
                RuntimeErrorView::ResourceAlreadyStarted(source.config.name@),
            )
            &&& own && idle && known ==> refusal == Some(
                RuntimeErrorView::DuplicateResource(endpoint.name@),
            )
        }),
{
}

/// A consumer can be made for an endpoint if and only if it has a topic and a group.
pub proof fn law_consumers_need_a_topic_and_a_group(endpoint: KafkaEndpointConfig)
    ensures
        endpoint_fault(endpoint) is None <==> !blank(endpoint.topic@) && !blank(
            endpoint.consumer_group@,
        ),
        blank(endpoint.topic@) ==> endpoint_fault(endpoint) == Some(
            "no topic specified for Kafka endpoint "@ + debug_text(endpoint.name@),
        ),
        !blank(endpoint.topic@) && blank(endpoint.consumer_group@) ==> endpoint_fault(endpoint)
            == Some(
            "consumer group is not set for Kafka endpoint "@ + debug_text(endpoint.name@),
        ),
{
}

/// A client connects to the brokers of its connector, with the timeout of the connector if it
/// has one; a consumer is a client of its endpoint's group that begins at the earliest message
/// and commits only what was marked.
pub proof fn law_consumers_commit_what_was_marked(
    config: KafkaDataConnectorConfig,
    endpoint: KafkaEndpointConfig,
)
    ensures
        ({
            let client = client_parameters(config);
            let consumer = consumer_parameters(config, endpoint);
            &&& client.contains_key("bootstrap.servers"@)
            &&& client["bootstrap.servers"@] == config.brokers@
            &&& client.contains_key("socket.timeout.ms"@) <==> config.dial_timeout > 0
            &&& config.dial_timeout > 0 ==> client["socket.timeout.ms"@] == natural_text(
                config.dial_timeout as nat,
            )
            &&& consumer.contains_key("bootstrap.servers"@)
            &&& consumer["bootstrap.servers"@] == config.brokers@
            &&& consumer["group.id"@] == endpoint.consumer_group@
            &&& consumer["auto.offset.reset"@] == "earliest"@
            &&& consumer["enable.auto.commit"@] == "true"@
            &&& consumer["enable.auto.offset.store"@] == "false"@
            &&& consumer.contains_key("socket.timeout.ms"@) <==> config.dial_timeout > 0
        }),
{
    reveal_strlit("bootstrap.servers");
    reveal_strlit("socket.timeout.ms");
    reveal_strlit("group.id");
    reveal_strlit("auto.offset.reset");
    reveal_strlit("enable.auto.commit");
    reveal_strlit("enable.auto.offset.store");
    assert("bootstrap.servers"@.len() == 17);
    assert("socket.timeout.ms"@.len() == 17);
    assert("bootstrap.servers"@[0] != "socket.timeout.ms"@[0]);
    assert("auto.offset.reset"@[0] != "bootstrap.servers"@[0]);
    assert("auto.offset.reset"@[0] != "socket.timeout.ms"@[0]);
    assert("group.id"@.len() == 8);
    assert("enable.auto.commit"@.len() == 18);
    assert("enable.auto.offset.store"@.len() == 24);
    assert("auto.offset.reset"@.len() == 17);
}

} // verus!
