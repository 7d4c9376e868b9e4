//! The topics of the Kafka data sink: creating them and counting their partitions.
use vstd::prelude::*;
use vstd::string::*;

use crate::datasink::kafka::datasink::{
    at_least_one, clamp_to_one, EnabledTopic, KafkaEndpointEntry, KafkaEndpointRuntimeState,
    KafkaState, NewTopicPlan, RdkafkaKafkaDataSink,
};
use crate::runtime::config::{KafkaEndpointConfig, RuntimeConfig, RuntimeEndpointConfig};
use crate::runtime::environment::RuntimeEnvironment;
use crate::runtime::error::{
    Fault, HandlerError, HandlerResult, RuntimeError, RuntimeErrorView, RuntimeResult,
};
use crate::runtime::text::{debug_text, quoted, same_text};

verus! {

/// A topic that is to be created, as characters.
pub ghost struct TopicView {
    pub topic: Seq<char>,
    pub partitions: i32,
    pub replication: i32,
}

impl View for NewTopicPlan {
    type V = TopicView;

    open spec fn view(&self) -> TopicView {
        TopicView {
            topic: self.topic@,
            partitions: self.partitions,
            replication: self.replication,
        }
    }
}

pub open spec fn plan_views(plans: Seq<NewTopicPlan>) -> Seq<TopicView> {
    Seq::new(plans.len(), |i: int| plans[i]@)
}

/// Whether a topic is planned already.
pub open spec fn planned(plans: Seq<TopicView>, topic: Seq<char>) -> bool {
    exists|i: int| 0 <= i < plans.len() && (#[trigger] plans[i]).topic == topic
}

/// The topics to create for the endpoints among the first `count` that are enabled
/// and ask for it: each topic once, as the first endpoint that names it has it.
pub open spec fn topics_for(
    config: RuntimeConfig,
    entries: Seq<KafkaEndpointEntry>,
    count: int,
) -> Seq<TopicView>
    decreases count,
{
    if count <= 0 {
        Seq::empty()
    } else {
        let before = topics_for(config, entries, count - 1);
        match config.spec_endpoint(entries[count - 1].id) {
            Some(RuntimeEndpointConfig::Kafka(endpoint)) => if endpoint.enabled
                && endpoint.create_topic && !planned(before, endpoint.topic@) {
                before.push(
                    TopicView {
                        topic: endpoint.topic@,
                        partitions: at_least_one(endpoint.partitions),
                        replication: at_least_one(endpoint.replication_factor),
                    },
                )
            } else {
                before
            },
            _ => before,
        }
    }
}

/// What the broker answered for one topic.
pub enum TopicOutcome {
    Created,
    AlreadyExists,
    Failed { topic: String, error: String },
}

/// The first failure among the broker's answers. A topic that exists is none.
pub open spec fn first_failure(outcomes: Seq<TopicOutcome>) -> Option<Seq<char>>
    decreases outcomes.len(),
{
    if outcomes.len() == 0 {
        None
    } else {
        match outcomes[0] {
            TopicOutcome::Failed { topic, error } => Some(
                "create Kafka topic "@ + debug_text(topic@) + " failed: "@ + error@,
            ),
            _ => first_failure(outcomes.drop_first()),
        }
    }
}

/// Holds the broker's answers to whether the topics are there.
pub fn check_topics(outcomes: &Vec<TopicOutcome>) -> (result: Result<(), String>)
    ensures
        match result {
            Ok(_) => first_failure(outcomes@) is None,
            Err(text) => first_failure(outcomes@) == Some(text@),
        },
{
    let mut i: usize = 0;
    assert(outcomes@.subrange(0, outcomes@.len() as int) =~= outcomes@);
    while i < outcomes.len()
        invariant
            i <= outcomes@.len(),
            first_failure(outcomes@) == first_failure(
                outcomes@.subrange(i as int, outcomes@.len() as int),
            ),
        decreases outcomes@.len() - i,
    {
        let ghost rest = outcomes@.subrange(i as int, outcomes@.len() as int);
        assert(rest[0] == outcomes@[i as int]);
        assert(rest.drop_first() =~= outcomes@.subrange(i + 1, outcomes@.len() as int));
        match &outcomes[i] {
            TopicOutcome::Failed { topic, error } => {
                let mut text = String::from_str("create Kafka topic ");
                text.append(quoted(topic.as_str()).as_str());
                text.append(" failed: ");
                text.append(error.as_str());
                return Err(text);
            },
            _ => {},
        }
        i = i + 1;
    }
    Ok(())
}

/// How many partitions the broker reported for a topic: the last report counts,
/// and a topic without one has none.
pub open spec fn reported(counts: Seq<(String, usize)>, topic: Seq<char>) -> usize
    decreases counts.len(),
{
    if counts.len() == 0 {
        0
    } else if counts.last().0@ == topic {
        counts.last().1
    } else {
        reported(counts.drop_last(), topic)
    }
}

fn find_count(counts: &Vec<(String, usize)>, topic: &str) -> (count: usize)
    ensures
        count == reported(counts@, topic@),
{
    let mut n: usize = counts.len();
    assert(counts@.take(n as int) =~= counts@);
    while n > 0
        invariant
            n <= counts@.len(),
            reported(counts@, topic@) == reported(counts@.take(n as int), topic@),
        decreases n,
    {
        let ghost front = counts@.take(n as int);
        assert(front.last() == counts@[n - 1]);
        assert(front.drop_last() =~= counts@.take(n - 1));
        if same_text(counts[n - 1].0.as_str(), topic) {
            return counts[n - 1].1;
        }
        n = n - 1;
    }
    0
}

/// Whether a number of partitions can be used.
pub open spec fn usable(count: usize) -> bool {
    0 < count <= i32::MAX
}

/// The endpoints with the partitions of the first `count` enabled topics in place.
pub open spec fn counted_up_to(
    entries: Seq<KafkaEndpointEntry>,
    enabled: Seq<EnabledTopic>,
    counts: Seq<(String, usize)>,
    count: int,
) -> Seq<KafkaEndpointEntry>
    decreases count,
{
    if count <= 0 {
        entries
    } else {
        let before = counted_up_to(entries, enabled, counts, count - 1);
        let topic = enabled[count - 1];
        let entry = before[topic.endpoint as int];
        before.update(
            topic.endpoint as int,
            KafkaEndpointEntry {
                state: KafkaEndpointRuntimeState {
                    partitions: reported(counts, topic.topic@) as i32,
                    ..entry.state
                },
                ..entry
            },
        )
    }
}

/// The first enabled topic from `from` on whose partitions cannot be used, or the
/// number of topics.
pub open spec fn first_unusable(
    enabled: Seq<EnabledTopic>,
    counts: Seq<(String, usize)>,
    from: int,
) -> int
    decreases enabled.len() - from,
{
    if from >= enabled.len() {
        enabled.len() as int
    } else if !usable(reported(counts, enabled[from].topic@)) {
        from
    } else {
        first_unusable(enabled, counts, from + 1)
    }
}

impl RdkafkaKafkaDataSink {
    /// The topics to create before the data sink runs.
    pub fn topics_to_create(&self, environment: &RuntimeEnvironment) -> (plans: Vec<NewTopicPlan>)
        ensures
            plan_views(plans@) == topics_for(
                environment@.config,
                self.endpoints@,
                self.endpoints@.len() as int,
            ),
    {
        let config = environment.runtime_config();
        let mut plans: Vec<NewTopicPlan> = Vec::new();
        let mut i: usize = 0;
        assert(plan_views(plans@) =~= topics_for(*config, self.endpoints@, 0));
        while i < self.endpoints.len()
            invariant
                i <= self.endpoints@.len(),
                *config == environment@.config,
                plan_views(plans@) == topics_for(*config, self.endpoints@, i as int),
            decreases self.endpoints@.len() - i,
        {
            let ghost before = plans@;
            match config.endpoint_by_id(self.endpoints[i].id) {
                Some(RuntimeEndpointConfig::Kafka(endpoint)) => {
                    if endpoint.enabled && endpoint.create_topic {
                        let known: bool = Self::has_plan(&plans, endpoint.topic.as_str());
                        if !known {
                            plans.push(
                                NewTopicPlan {
                                    topic: endpoint.topic.clone(),
                                    partitions: clamp_to_one(endpoint.partitions),
                                    replication: clamp_to_one(endpoint.replication_factor),
                                },
                            );
                        }
                    }
                },
                _ => {},
            }
            assert(plan_views(plans@) =~= topics_for(*config, self.endpoints@, i + 1));
            i = i + 1;
        }
        plans
    }

    fn has_plan(plans: &Vec<NewTopicPlan>, topic: &str) -> (found: bool)
        ensures
            found == planned(plan_views(plans@), topic@),
    {
        let mut i: usize = 0;
        while i < plans.len()
            invariant
                i <= plans@.len(),
                forall|j: int| 0 <= j < i ==> (#[trigger] plans@[j]).topic@ != topic@,
            decreases plans@.len() - i,
        {
            if same_text(plans[i].topic.as_str(), topic) {
                assert(plan_views(plans@)[i as int].topic == topic@);
                return true;
            }
            i = i + 1;
        }
        assert forall|j: int| 0 <= j < plan_views(plans@).len() implies (#[trigger] plan_views(
            plans@,
        )[j]).topic != topic@ by {
            assert(plans@[j].topic@ != topic@);
        }
        false
    }

    /// Gives the start up over a client that could not be made or a topic that could
    /// not be created. The data sink may start again.
    pub fn give_up_start(&mut self, reason: String) -> (error: RuntimeError)
        ensures
            error@ == RuntimeErrorView::Transport(reason@),
            final(self).state == KafkaState::Idle,
            final(self).id == old(self).id,
            final(self).name == old(self).name,
            final(self).endpoints@ == old(self).endpoints@,
            final(self).has_producer == old(self).has_producer,
    {
        self.state = KafkaState::Idle;
        RuntimeError::Transport(reason)
    }

    /// Ends the start with the partitions that the broker reported. The endpoints
    /// take over their counts all together or, if the report fails or a topic has
    /// none, not at all; the data sink then stays as it is.
    pub fn finish_start(
        &mut self,
        enabled: &Vec<EnabledTopic>,
        reported_counts: Result<Vec<(String, usize)>, String>,
    ) -> (result: RuntimeResult<()>)
        requires
            forall|i: int|
                0 <= i < enabled@.len() ==> (#[trigger] enabled@[i]).endpoint < old(
                    self,
                ).endpoints@.len(),
        ensures
            final(self).id == old(self).id,
            final(self).name == old(self).name,
            old(self).wf() ==> final(self).wf(),
            match reported_counts {
                Ok(counts) => {
                    let bad = first_unusable(enabled@, counts@, 0);
                    if bad < enabled@.len() {
                        &&& result is Err
                        &&& result->Err_0@ == RuntimeErrorView::Transport(
                            "Kafka topic "@ + debug_text(enabled@[bad].topic@)
                                + " has no partitions"@,
                        )
                        &&& *final(self) == *old(self)
                    } else {
                        &&& result is Ok
                        &&& final(self).endpoints@ == counted_up_to(
                            old(self).endpoints@,
                            enabled@,
                            counts@,
                            enabled@.len() as int,
                        )
                        &&& final(self).has_producer
                        &&& final(self).state == KafkaState::Running
                    }
                },
                Err(text) => {
                    &&& result is Err
                    &&& result->Err_0@ == RuntimeErrorView::Transport(text@)
                    &&& *final(self) == *old(self)
                },
            },
    {
        let counts = match reported_counts {
            Ok(counts) => counts,
            Err(text) => return Err(RuntimeError::Transport(text)),
        };
        let mut i: usize = 0;
        while i < enabled.len()
            invariant
                i <= enabled@.len(),
                *self == *old(self),
                reported_counts == Ok::<_, String>(counts),
                first_unusable(enabled@, counts@, 0) == first_unusable(enabled@, counts@, i as int),
            decreases enabled@.len() - i,
        {
            let count: usize = find_count(&counts, enabled[i].topic.as_str());
            if count == 0 || count > i32::MAX as usize {
                let mut text = String::from_str("Kafka topic ");
                text.append(quoted(enabled[i].topic.as_str()).as_str());
                text.append(" has no partitions");
                return Err(RuntimeError::Transport(text));
            }
            i = i + 1;
        }
        let mut k: usize = 0;
        while k < enabled.len()
            invariant
                k <= enabled@.len(),
                reported_counts == Ok::<_, String>(counts),
                self.id == old(self).id,
                self.name == old(self).name,
                self.endpoints@.len() == old(self).endpoints@.len(),
                self.endpoints@ == counted_up_to(
                    old(self).endpoints@,
                    enabled@,
                    counts@,
                    k as int,
                ),
                forall|i: int|
                    0 <= i < self.endpoints@.len() ==> (#[trigger] self.endpoints@[i]).id == old(
                        self,
                    ).endpoints@[i].id,
                first_unusable(enabled@, counts@, 0) == enabled@.len(),
                forall|i: int|
                    0 <= i < enabled@.len() ==> (#[trigger] enabled@[i]).endpoint < old(
                        self,
                    ).endpoints@.len(),
            decreases enabled@.len() - k,
        {
            let count: usize = find_count(&counts, enabled[k].topic.as_str());
            proof {
                lemma_all_usable(enabled@, counts@, 0, k as int);
            }
            let index: usize = enabled[k].endpoint;
            let entry = self.endpoints[index];
            self.endpoints.set(
                index,
                KafkaEndpointEntry {
                    id: entry.id,
                    state: KafkaEndpointRuntimeState {
                        enabled: entry.state.enabled,
                        partitions: count as i32,
                    },
                },
            );
            k = k + 1;
        }
        self.has_producer = true;
        self.state = KafkaState::Running;
        proof {
            if old(self).wf() {
                assert forall|i: int, j: int| 0 <= i < j < self.endpoints@.len() implies (
                #[trigger] self.endpoints@[i]).id != (#[trigger] self.endpoints@[j]).id by {
                    assert(old(self).endpoints@[i].id != old(self).endpoints@[j].id);
                }
            }
        }
        Ok(())
    }

    /// Whether a record can be sent.
    pub fn check_send<X>(&self) -> (result: HandlerResult<(), X>)
        ensures
            result == (if self.state == KafkaState::Running && self.has_producer {
                Ok(())
            } else {
                Err(HandlerError::<X>::Fault(Fault::KafkaProducerNotRunning))
            }),
    {
        if self.state != KafkaState::Running || !self.has_producer {
            Err(HandlerError::Fault(Fault::KafkaProducerNotRunning))
        } else {
            Ok(())
        }
    }

    /// Stops the data sink for good. Sending tasks are awaited and the producer is
    /// flushed the first time only.
    pub fn stop(&mut self) -> (first: bool)
        ensures
            first == (old(self).state != KafkaState::Stopped),
            final(self).state == KafkaState::Stopped,
            final(self).id == old(self).id,
            final(self).name == old(self).name,
            final(self).endpoints@ == old(self).endpoints@,
            final(self).has_producer == old(self).has_producer,
    {
        let first: bool = self.state != KafkaState::Stopped;
        self.state = KafkaState::Stopped;
        first
    }

    /// What waiting for the sending tasks comes to: flushing follows or, where the
    /// context was cancelled before they were through, nothing does.
    pub fn after_tasks(&self, through: bool) -> (result: RuntimeResult<()>)
        ensures
            match result {
                Ok(_) => through,
                Err(error) => !through && error@ == RuntimeErrorView::ContextCancelled,
            },
    {
        if through {
            Ok(())
        } else {
            Err(RuntimeError::ContextCancelled)
        }
    }

    /// What one attempt at flushing the producer comes to: done, given up because the
    /// context was cancelled, or to be repeated.
    pub fn after_flush(&self, flushed: bool, cancelled: bool) -> (outcome: Option<
        RuntimeResult<()>,
    >)
        ensures
            match outcome {
                Some(Ok(_)) => !self.has_producer || flushed,
                Some(Err(error)) => self.has_producer && !flushed && cancelled && error@
                    == RuntimeErrorView::ContextCancelled,
                None => self.has_producer && !flushed && !cancelled,
            },
    {
        if !self.has_producer || flushed {
            return Some(Ok(()));
        }
        if cancelled {
            return Some(Err(RuntimeError::ContextCancelled));
        }
        None
    }
}

proof fn lemma_all_usable(
    enabled: Seq<EnabledTopic>,
    counts: Seq<(String, usize)>,
    from: int,
    k: int,
)
    requires
        0 <= from <= k < enabled.len(),
        first_unusable(enabled, counts, from) == enabled.len(),
    ensures
        usable(reported(counts, enabled[k].topic@)),
    decreases k - from,
{
    if from < k {
        lemma_all_usable(enabled, counts, from + 1, k);
    }
}

/// Every topic is created at most once, whatever the endpoints ask for.
pub proof fn law_topics_created_once(
    config: RuntimeConfig,
    entries: Seq<KafkaEndpointEntry>,
    count: int,
)
    ensures
        forall|i: int, j: int|
            0 <= i < j < topics_for(config, entries, count).len() ==> (#[trigger] topics_for(
                config,
                entries,
                count,
            )[i]).topic != (#[trigger] topics_for(config, entries, count)[j]).topic,
    decreases count,
{
    if count > 0 {
        law_topics_created_once(config, entries, count - 1);
        let before = topics_for(config, entries, count - 1);
        let after = topics_for(config, entries, count);
        assert forall|i: int, j: int| 0 <= i < j < after.len() implies (
        #[trigger] after[i]).topic != (#[trigger] after[j]).topic by {
            if j < before.len() {
                assert(before[i].topic != before[j].topic);
            } else {
                assert(after[i] == before[i]);
            }
        }
    }
}

/// Every topic that an enabled endpoint asks for is created.
pub proof fn law_asked_topics_created(
    config: RuntimeConfig,
    entries: Seq<KafkaEndpointEntry>,
    count: int,
    index: int,
)
    requires
        0 <= index < count <= entries.len(),
        config.spec_endpoint(entries[index].id) matches Some(RuntimeEndpointConfig::Kafka(endpoint))
            && endpoint.enabled && endpoint.create_topic,
    ensures
        planned(
            topics_for(config, entries, count),
            config.spec_endpoint(entries[index].id)->0->Kafka_0.topic@,
        ),
    decreases count,
{
    let topic = config.spec_endpoint(entries[index].id)->0->Kafka_0.topic@;
    let before = topics_for(config, entries, count - 1);
    let after = topics_for(config, entries, count);
    if index == count - 1 {
        if planned(before, topic) {
        } else {
            assert(after.last().topic == topic);
        }
    } else {
        law_asked_topics_created(config, entries, count - 1, index);
        let i = choose|i: int| 0 <= i < before.len() && (#[trigger] before[i]).topic == topic;
        assert(after[i] == before[i]);
    }
}

/// Whether a topic is planned as an endpoint has it, with at least one partition and one
/// replica.
pub open spec fn plan_of(plan: TopicView, endpoint: KafkaEndpointConfig) -> bool {
    &&& endpoint.enabled && endpoint.create_topic
    &&& plan.topic == endpoint.topic@
    &&& plan.partitions >= 1 && plan.replication >= 1
    &&& endpoint.partitions >= 1 ==> plan.partitions == endpoint.partitions
    &&& endpoint.partitions < 1 ==> plan.partitions == 1
    &&& endpoint.replication_factor >= 1 ==> plan.replication == endpoint.replication_factor
    &&& endpoint.replication_factor < 1 ==> plan.replication == 1
}

/// A topic is created only if an enabled endpoint asks for it, and then as the first such
/// endpoint has it.
pub proof fn law_topics_are_created_as_first_asked(
    config: RuntimeConfig,
    entries: Seq<KafkaEndpointEntry>,
    count: int,
    k: int,
) -> (index: int)
    requires
        0 <= count <= entries.len(),
        0 <= k < topics_for(config, entries, count).len(),
    ensures
        0 <= index < count,
        config.spec_endpoint(entries[index].id) matches Some(RuntimeEndpointConfig::Kafka(endpoint))
            && plan_of(topics_for(config, entries, count)[k], endpoint),
        forall|j: int|
            0 <= j < index ==> !(config.spec_endpoint((#[trigger] entries[j]).id) matches Some(
                RuntimeEndpointConfig::Kafka(other),
            ) && other.enabled && other.create_topic && other.topic@ == topics_for(
                config,
                entries,
                count,
            )[k].topic),
    decreases count,
{
    let before = topics_for(config, entries, count - 1);
    let plans = topics_for(config, entries, count);
    if k < before.len() {
        assert(plans[k] == before[k]);
        law_topics_are_created_as_first_asked(config, entries, count - 1, k)
    } else {
        let topic = config.spec_endpoint(entries[count - 1].id)->0->Kafka_0.topic@;
        assert(plans[k].topic == topic);
        assert forall|j: int| 0 <= j < count - 1 implies !(config.spec_endpoint(
            (#[trigger] entries[j]).id,
        ) matches Some(RuntimeEndpointConfig::Kafka(other)) && other.enabled && other.create_topic
            && other.topic@ == topic) by {
            match config.spec_endpoint(entries[j].id) {
                Some(RuntimeEndpointConfig::Kafka(other)) => {
                    if other.enabled && other.create_topic && other.topic@ == topic {
                        law_asked_topics_created(config, entries, count - 1, j);
                    }
                },
                _ => {},
            }
        }
        count - 1
    }
}

/// Creating topics fails if and only if one of them failed for a reason other than that it is
/// there already, and says which was the first and why.
pub proof fn law_first_failed_topic_is_reported(outcomes: Seq<TopicOutcome>)
    ensures
        match first_failure(outcomes) {
            Some(text) => exists|i: int|
                {
                    &&& 0 <= i < outcomes.len()
                    &&& (#[trigger] outcomes[i]) matches TopicOutcome::Failed { topic, error }
                        && text == "create Kafka topic "@ + debug_text(topic@) + " failed: "@
                        + error@
                    &&& forall|j: int| 0 <= j < i ==> !((#[trigger] outcomes[j]) is Failed)
                },
            None => forall|j: int|
                0 <= j < outcomes.len() ==> !((#[trigger] outcomes[j]) is Failed),
        },
    decreases outcomes.len(),
{
    if outcomes.len() > 0 && !(outcomes[0] is Failed) {
        let rest = outcomes.drop_first();
        law_first_failed_topic_is_reported(rest);
        assert forall|j: int| 0 < j < outcomes.len() implies #[trigger] outcomes[j] == rest[j
            - 1] by {}
        match first_failure(rest) {
            Some(text) => {
                let i = choose|i: int|
                    {
                        &&& 0 <= i < rest.len()
                        &&& (#[trigger] rest[i]) matches TopicOutcome::Failed { topic, error }
                            && text == "create Kafka topic "@ + debug_text(topic@) + " failed: "@
                            + error@
                        &&& forall|j: int| 0 <= j < i ==> !((#[trigger] rest[j]) is Failed)
                    };
                assert(outcomes[i + 1] == rest[i]);
                assert forall|j: int| 0 <= j < i + 1 implies !((#[trigger] outcomes[j])
                    is Failed) by {
                    if j > 0 {
                        assert(!(rest[j - 1] is Failed));
                    }
                }
            },
            None => {
                assert forall|j: int| 0 <= j < outcomes.len() implies !((#[trigger] outcomes[j])
                    is Failed) by {
                    if j > 0 {
                        assert(!(rest[j - 1] is Failed));
                    }
                }
            },
        }
    }
}

/// The partitions of a topic are those that the broker reported last for it, and none where it
/// reported none.
pub proof fn law_reported_partitions_are_found(counts: Seq<(String, usize)>, topic: Seq<char>)
    ensures
        ({
            ||| {
                &&& reported(counts, topic) == 0
                &&& forall|j: int| 0 <= j < counts.len() ==> (#[trigger] counts[j]).0@ != topic
            }
            ||| exists|i: int|
                {
                    &&& 0 <= i < counts.len()
                    &&& (#[trigger] counts[i]).0@ == topic
                    &&& counts[i].1 == reported(counts, topic)
                    &&& forall|j: int| i < j < counts.len() ==> (#[trigger] counts[j]).0@ != topic
                }
        }),
    decreases counts.len(),
{
    if counts.len() > 0 {
        assert(counts[counts.len() - 1] == counts.last());
        if counts.last().0@ != topic {
            let front = counts.drop_last();
            law_reported_partitions_are_found(front, topic);
            assert forall|j: int| 0 <= j < front.len() implies counts[j] == #[trigger] front[j] by {}
            if exists|i: int|
                {
                    &&& 0 <= i < front.len()
                    &&& (#[trigger] front[i]).0@ == topic
                    &&& front[i].1 == reported(front, topic)
                    &&& forall|j: int| i < j < front.len() ==> (#[trigger] front[j]).0@ != topic
                } {
                let i = choose|i: int|
                    {
                        &&& 0 <= i < front.len()
                        &&& (#[trigger] front[i]).0@ == topic
                        &&& front[i].1 == reported(front, topic)
                        &&& forall|j: int| i < j < front.len() ==> (#[trigger] front[j]).0@ != topic
                    };
                assert(counts[i] == front[i]);
                assert forall|j: int| i < j < counts.len() implies (#[trigger] counts[j]).0@
                    != topic by {
                    if j < front.len() {
                        assert(front[j].0@ != topic);
                    }
                }
            } else {
                assert forall|j: int| 0 <= j < counts.len() implies (#[trigger] counts[j]).0@
                    != topic by {
                    if j < front.len() {
                        assert(front[j].0@ != topic);
                    }
                }
            }
        }
    }
}

/// The topic that a start fails for is the first one that the broker reported no partitions
/// for, or more than a producer can address.
pub proof fn law_first_unusable_topic_is_found(
    enabled: Seq<EnabledTopic>,
    counts: Seq<(String, usize)>,
    from: int,
)
    requires
        0 <= from <= enabled.len(),
    ensures
        ({
            let bad = first_unusable(enabled, counts, from);
            &&& from <= bad <= enabled.len()
            &&& bad < enabled.len() ==> {
                ||| reported(counts, enabled[bad].topic@) == 0
                ||| reported(counts, enabled[bad].topic@) > i32::MAX
            }
            &&& forall|i: int|
                from <= i < bad ==> 0 < reported(counts, (#[trigger] enabled[i]).topic@)
                    <= i32::MAX
        }),
    decreases enabled.len() - from,
{
    if from < enabled.len() && usable(reported(counts, enabled[from].topic@)) {
        law_first_unusable_topic_is_found(enabled, counts, from + 1);
    }
}

/// An endpoint whose topic was counted gets the number of partitions that the broker reported
/// for it; whether it is enabled, and every other endpoint, stays as it was.
pub proof fn law_counted_endpoints_get_their_partitions(
    entries: Seq<KafkaEndpointEntry>,
    enabled: Seq<EnabledTopic>,
    counts: Seq<(String, usize)>,
    count: int,
    index: int,
)
    requires
        0 <= count <= enabled.len(),
        0 <= index < entries.len(),
        forall|i: int| 0 <= i < count ==> (#[trigger] enabled[i]).endpoint < entries.len(),
    ensures
        ({
            let after = counted_up_to(entries, enabled, counts, count);
            &&& after.len() == entries.len()
            &&& after[index].id == entries[index].id
            &&& after[index].state.enabled == entries[index].state.enabled
            &&& (forall|i: int| 0 <= i < count ==> (#[trigger] enabled[i]).endpoint != index)
                ==> after[index] == entries[index]
            &&& forall|i: int|
                0 <= i < count && (#[trigger] enabled[i]).endpoint == index && (forall|j: int|
                    i < j < count ==> (#[trigger] enabled[j]).endpoint != index)
                    ==> after[index].state.partitions == reported(counts, enabled[i].topic@) as i32
        }),
    decreases count,
{
    if count > 0 {
        law_counted_endpoints_get_their_partitions(entries, enabled, counts, count - 1, index);
        assert(enabled[count - 1].endpoint < entries.len());
    }
}

/// Plans as characters are the same plans, in the same order.
pub proof fn law_views_keep_the_plans(plans: Seq<NewTopicPlan>, index: int)
    requires
        0 <= index < plans.len(),
    ensures
        plan_views(plans).len() == plans.len(),
        plan_views(plans)[index].topic == plans[index].topic@,
        plan_views(plans)[index].partitions == plans[index].partitions,
        plan_views(plans)[index].replication == plans[index].replication,
{
}

} // verus!
