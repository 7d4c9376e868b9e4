//! Messages of a Kafka source and the lanes that they are served in.
use vstd::prelude::*;

use crate::runtime::text::same_text;

verus! {

/// A message as the broker delivered it.
pub struct ConsumerMessage {
    pub key: Option<Vec<u8>>,
    pub value: Vec<u8>,
    pub topic: String,
    pub partition: i32,
    pub offset: i64,
}

/// Up to where a partition has been consumed: `offset` is the next one to come.
pub struct OffsetMark {
    pub topic: String,
    pub partition: i32,
    pub offset: i64,
}

impl ConsumerMessage {
    pub fn new(
        key: Option<Vec<u8>>,
        value: Vec<u8>,
        topic: String,
        partition: i32,
        offset: i64,
    ) -> (message: ConsumerMessage)
        ensures
            message == (ConsumerMessage { key, value, topic, partition, offset }),
    {
        ConsumerMessage { key, value, topic, partition, offset }
    }

    /// What committing the message commits: the offset after it.
    pub fn commit(&self) -> (mark: OffsetMark)
        requires
            self.offset < i64::MAX,
        ensures
            mark.topic@ == self.topic@,
            mark.partition == self.partition,
            mark.offset == self.offset + 1,
    {
        OffsetMark {
            topic: self.topic.clone(),
            partition: self.partition,
            offset: self.offset + 1,
        }
    }

    /// What marking the message stores, to be committed later: the offset after it.
    /// The metadata is not kept.
    pub fn mark_message(&self, metadata: String) -> (mark: OffsetMark)
        requires
            self.offset < i64::MAX,
        ensures
            mark.topic@ == self.topic@,
            mark.partition == self.partition,
            mark.offset == self.offset + 1,
    {
        self.commit()
    }
}

/// A partition of a topic, by which messages are served in their order.
pub ghost struct LaneKey {
    pub topic: Seq<char>,
    pub partition: i32,
}

/// The lanes of a consumer, one for every partition that a message came from.
/// Messages of one lane are served one after the other, lanes side by side.
pub struct Lanes {
    lanes: Vec<(String, i32)>,
}

impl View for Lanes {
    type V = Seq<LaneKey>;

    closed spec fn view(&self) -> Seq<LaneKey> {
        Seq::new(
            self.lanes@.len(),
            |i: int| LaneKey { topic: self.lanes@[i].0@, partition: self.lanes@[i].1 },
        )
    }
}

/// No two lanes serve the same partition.
pub open spec fn distinct(lanes: Seq<LaneKey>) -> bool {
    forall|i: int, j: int| 0 <= i < j < lanes.len() ==> #[trigger] lanes[i] != #[trigger] lanes[j]
}

impl Lanes {
    pub fn new() -> (lanes: Lanes)
        ensures
            lanes@.len() == 0,
            distinct(lanes@),
    {
        Lanes { lanes: Vec::new() }
    }

    /// The lane of a partition, which is opened where there is none. Lanes that are
    /// there stay as they are.
    pub fn lane_for(&mut self, topic: &str, partition: i32) -> (found: (usize, bool))
        requires
            distinct(old(self)@),
        ensures
            distinct(final(self)@),
            found.0 < final(self)@.len(),
            final(self)@[found.0 as int] == (LaneKey { topic: topic@, partition }),
            final(self)@ == (if found.1 {
                old(self)@.push(LaneKey { topic: topic@, partition })
            } else {
                old(self)@
            }),
            found.1 == !old(self)@.contains(LaneKey { topic: topic@, partition }),
    {
        let ghost key = LaneKey { topic: topic@, partition };
        let mut i: usize = 0;
        while i < self.lanes.len()
            invariant
                i <= self.lanes@.len(),
                *self == *old(self),
                distinct(self@),
                key == (LaneKey { topic: topic@, partition }),
                self@.len() == self.lanes@.len(),
                forall|j: int| 0 <= j < i ==> #[trigger] self@[j] != key,
            decreases self.lanes@.len() - i,
        {
            if self.lanes[i].1 == partition && same_text(self.lanes[i].0.as_str(), topic) {
                assert(self@[i as int] == key);
                return (i, false);
            }
            assert(self@[i as int] != key);
            i = i + 1;
        }
        let ghost before = self@;
        self.lanes.push((topic.to_owned(), partition));
        assert(self@ =~= before.push(key));
        (i, true)
    }
}

/// Two messages share a lane exactly if they come from the same partition: so the
/// messages of a partition are served in their order, whatever else goes on.
pub proof fn law_one_lane_per_partition(lanes: Seq<LaneKey>, a: int, b: int)
    requires
        distinct(lanes),
        0 <= a < lanes.len(),
        0 <= b < lanes.len(),
    ensures
        a == b <==> lanes[a] == lanes[b],
{
    if a < b {
        assert(lanes[a] != lanes[b]);
    } else if b < a {
        assert(lanes[b] != lanes[a]);
    }
}

/// What happens in the loop that receives messages.
pub enum LoopEvent {
    /// The endpoint was stopped or its context cancelled.
    Stopped,
    /// The broker reported an error instead of a message.
    ReceiveFailed,
    /// A message came.
    Received { topic: String, partition: i32 },
    /// The message was queued in its lane.
    Queued,
    /// The lane takes no more messages.
    LaneClosed,
}

/// What the loop does next.
#[derive(Clone, Copy, Debug, PartialEq, Eq, Structural)]
pub enum LoopAction {
    /// Receive the next message.
    Receive,
    /// Queue the message in a lane, which is opened first where `open` holds.
    Dispatch { lane: usize, open: bool },
    /// Close all lanes, wait for them and end.
    Finish,
}

/// One step of the loop that receives messages. An error of the broker is passed
/// over; a lane that takes no more messages ends the loop.
pub fn loop_step(lanes: &mut Lanes, event: LoopEvent) -> (action: LoopAction)
    requires
        distinct(old(lanes)@),
    ensures
        distinct(final(lanes)@),
        match event {
            LoopEvent::Stopped => action == LoopAction::Finish && final(lanes)@ == old(lanes)@,
            LoopEvent::LaneClosed => action == LoopAction::Finish && final(lanes)@ == old(lanes)@,
            LoopEvent::ReceiveFailed => action == LoopAction::Receive && final(lanes)@ == old(
                lanes,
            )@,
            LoopEvent::Queued => action == LoopAction::Receive && final(lanes)@ == old(lanes)@,
            LoopEvent::Received { topic, partition } => action matches LoopAction::Dispatch {
                lane,
                open,
            } && {
                let key = LaneKey { topic: topic@, partition };
                &&& lane < final(lanes)@.len()
                &&& final(lanes)@[lane as int] == key
                &&& open == !old(lanes)@.contains(key)
                &&& final(lanes)@ == (if open {
                    old(lanes)@.push(key)
                } else {
                    old(lanes)@
                })
            },
        },
{
    match event {
        LoopEvent::Stopped => LoopAction::Finish,
        LoopEvent::LaneClosed => LoopAction::Finish,
        LoopEvent::ReceiveFailed => LoopAction::Receive,
        LoopEvent::Queued => LoopAction::Receive,
        LoopEvent::Received { topic, partition } => {
            let (lane, open) = lanes.lane_for(topic.as_str(), partition);
            LoopAction::Dispatch { lane, open }
        },
    }
}

} // verus!
