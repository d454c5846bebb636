//! The fan-out of page records: every record that is published is handed to
//! every subscriber, each of which has a bounded buffer of its own.

use crate::page::PageRecord;
use std::collections::VecDeque;
use std::sync::Arc;
use vstd::prelude::*;

verus! {

/// What happens to a subscriber whose buffer is full when a record arrives.
/// Either way the oldest record in the buffer makes room for the new one:
/// publishing never waits for a subscriber.
#[derive(Debug, Clone, Copy, PartialEq, Eq, Structural)]
pub enum Overflow {
    /// The subscriber is told, with its next receipt, how many records it
    /// has missed.
    Lag,
    /// The subscriber is not told.
    DropOldest,
}

/// What a subscriber holds.
pub struct SubscriberModel {
    /// The records that wait to be received, the oldest first.
    pub buffer: Seq<Arc<PageRecord>>,
    /// The most records that the buffer holds.
    pub capacity: usize,
    /// The number of records that were missed and not yet told of.
    pub missed: usize,
    /// Whether the subscriber is still subscribed.
    pub active: bool,
}

impl SubscriberModel {
    /// The buffer holds no more than its capacity.
    pub open spec fn wf(self) -> bool {
        self.buffer.len() <= self.capacity
    }

    /// A subscriber that has just subscribed: it has received nothing and
    /// missed nothing.
    pub open spec fn new(capacity: usize) -> SubscriberModel {
        SubscriberModel { buffer: Seq::empty(), capacity, missed: 0, active: true }
    }

    /// The count of missed records after one more is missed. The count
    /// stops at the largest number that it can hold.
    pub open spec fn missed_once_more(self, policy: Overflow) -> usize {
        if policy == Overflow::Lag && self.missed < usize::MAX {
            (self.missed + 1) as usize
        } else {
            self.missed
        }
    }

    /// The subscriber after a record is published. A subscriber that has
    /// left gets nothing. A buffer with room takes the record behind the
    /// others. A full buffer loses its oldest record to make room, and a
    /// buffer that can hold nothing loses the record itself.
    pub open spec fn deliver(self, record: Arc<PageRecord>, policy: Overflow) -> SubscriberModel {
        if !self.active {
            self
        } else if self.capacity == 0 {
            SubscriberModel { missed: self.missed_once_more(policy), ..self }
        } else if self.buffer.len() >= self.capacity {
            SubscriberModel {
                buffer: self.buffer.subrange(1, self.buffer.len() as int).push(record),
                missed: self.missed_once_more(policy),
                ..self
            }
        } else {
            SubscriberModel { buffer: self.buffer.push(record), ..self }
        }
    }

    /// What the subscriber receives next.
    pub open spec fn receipt(self) -> Delivery {
        if !self.active {
            Delivery::Closed
        } else if self.missed > 0 {
            Delivery::Lagged(self.missed)
        } else if self.buffer.len() > 0 {
            Delivery::Record(self.buffer[0])
        } else {
            Delivery::Empty
        }
    }

    /// The subscriber after it has received.
    pub open spec fn received(self) -> SubscriberModel {
        if !self.active {
            self
        } else if self.missed > 0 {
            SubscriberModel { missed: 0, ..self }
        } else if self.buffer.len() > 0 {
            SubscriberModel { buffer: self.buffer.subrange(1, self.buffer.len() as int), ..self }
        } else {
            self
        }
    }

    /// The subscriber after one record after the other is published.
    pub open spec fn deliver_all(self, records: Seq<Arc<PageRecord>>, policy: Overflow) -> SubscriberModel
        decreases records.len(),
    {
        if records.len() == 0 {
            self
        } else {
            self.deliver(records[0], policy).deliver_all(records.skip(1), policy)
        }
    }
}

/// What a subscriber gets when it asks for its next record.
#[derive(Debug, Clone, PartialEq, Eq)]
pub enum Delivery {
    /// The oldest record that waited.
    Record(Arc<PageRecord>),
    /// So many records were missed since the last receipt. The records that
    /// are still there follow with the next receipts.
    Lagged(usize),
    /// No record waits.
    Empty,
    /// The subscriber is not subscribed.
    Closed,
}

/// What the fan-out holds.
pub struct HubModel {
    /// The subscribers, by their handles.
    pub subscribers: Seq<SubscriberModel>,
    /// What happens when a buffer is full.
    pub policy: Overflow,
}

impl HubModel {
    /// Every subscriber is well formed.
    pub open spec fn wf(self) -> bool {
        forall|i: int| 0 <= i < self.subscribers.len() ==> (#[trigger] self.subscribers[i]).wf()
    }

    /// The fan-out after a record is published: every subscriber is
    /// delivered to.
    pub open spec fn publish(self, record: Arc<PageRecord>) -> HubModel {
        HubModel {
            subscribers: self.subscribers.map_values(
                |s: SubscriberModel| s.deliver(record, self.policy),
            ),
            policy: self.policy,
        }
    }

    /// The fan-out after one record after the other is published.
    pub open spec fn publish_all(self, records: Seq<Arc<PageRecord>>) -> HubModel
        decreases records.len(),
    {
        if records.len() == 0 {
            self
        } else {
            self.publish(records[0]).publish_all(records.skip(1))
        }
    }
}

struct Subscriber {
    buffer: VecDeque<Arc<PageRecord>>,
    capacity: usize,
    missed: usize,
    active: bool,
}

impl View for Subscriber {
    type V = SubscriberModel;

    closed spec fn view(&self) -> SubscriberModel {
        SubscriberModel {
            buffer: self.buffer@,
            capacity: self.capacity,
            missed: self.missed,
            active: self.active,
        }
    }
}

/// `Arc::clone` of the standard library: one more pointer to the same value.
#[verifier::external_body]
fn share(record: &Arc<PageRecord>) -> (r: Arc<PageRecord>)
    ensures
        r == *record,
{
    Arc::clone(record)
}

impl Subscriber {
    fn deliver(&mut self, record: Arc<PageRecord>, policy: Overflow)
        requires
            old(self)@.wf(),
        ensures
            final(self)@ == old(self)@.deliver(record, policy),
            final(self)@.wf(),
    {
        if !self.active {
            return ;
        }
        let full = self.buffer.len() >= self.capacity;
        if full {
            match policy {
                Overflow::Lag => if self.missed < usize::MAX {
                    self.missed = self.missed + 1;
                },
                Overflow::DropOldest => {},
            }
            if self.capacity == 0 {
                return ;
            }
            let _ = self.buffer.pop_front();
        }
        self.buffer.push_back(record);
    }
}

/// The fan-out of page records.
pub struct Broadcast {
    subscribers: Vec<Subscriber>,
    policy: Overflow,
}

impl View for Broadcast {
    type V = HubModel;

    closed spec fn view(&self) -> HubModel {
        HubModel {
            subscribers: self.subscribers@.map_values(|s: Subscriber| s@),
            policy: self.policy,
        }
    }
}

impl Broadcast {
    /// A fan-out without subscribers.
    pub fn new(policy: Overflow) -> (r: Self)
        ensures
            r@.subscribers.len() == 0,
            r@.policy == policy,
            r@.wf(),
    {
        Broadcast { subscribers: Vec::new(), policy }
    }

    /// Subscribes with a buffer of the given capacity and returns the handle
    /// of the new subscriber. The subscriber gets the records that are
    /// published from now on, and none of the earlier ones.
    pub fn subscribe(&mut self, buffer_capacity: usize) -> (r: usize)
        requires
            old(self)@.wf(),
        ensures
            final(self)@.wf(),
            r == old(self)@.subscribers.len(),
            final(self)@.policy == old(self)@.policy,
            final(self)@.subscribers == old(self)@.subscribers.push(
                SubscriberModel::new(buffer_capacity),
            ),
    {
        let handle = self.subscribers.len();
        self.subscribers.push(
            Subscriber {
                buffer: VecDeque::new(),
                capacity: buffer_capacity,
                missed: 0,
                active: true,
            },
        );
        assert(self@.subscribers =~= old(self)@.subscribers.push(
            SubscriberModel::new(buffer_capacity),
        ));
        handle
    }

    /// Ends a subscription; the result tells whether the handle named one.
    /// The records that still waited are dropped.
    pub fn unsubscribe(&mut self, handle: usize) -> (r: bool)
        requires
            old(self)@.wf(),
        ensures
            final(self)@.wf(),
            final(self)@.policy == old(self)@.policy,
            r == (handle < old(self)@.subscribers.len() && old(self)@.subscribers[handle as int].active),
            final(self)@.subscribers == if r {
                old(self)@.subscribers.update(
                    handle as int,
                    SubscriberModel {
                        buffer: Seq::empty(),
                        active: false,
                        ..old(self)@.subscribers[handle as int]
                    },
                )
            } else {
                old(self)@.subscribers
            },
    {
        if handle < self.subscribers.len() && self.subscribers[handle].active {
            let old_one = &self.subscribers[handle];
            let closed = Subscriber {
                buffer: VecDeque::new(),
                capacity: old_one.capacity,
                missed: old_one.missed,
                active: false,
            };
            self.subscribers.set(handle, closed);
            assert(self@.subscribers =~= old(self)@.subscribers.update(
                handle as int,
                SubscriberModel {
                    buffer: Seq::empty(),
                    active: false,
                    ..old(self)@.subscribers[handle as int]
                },
            ));
            true
        } else {
            assert(self@.subscribers =~= old(self)@.subscribers);
            false
        }
    }

    /// Publishes a record to every subscriber. The call never waits: a
    /// subscriber whose buffer is full loses its oldest record.
    pub fn publish(&mut self, record: PageRecord)
        requires
            old(self)@.wf(),
        ensures
            final(self)@.wf(),
            exists|shared: Arc<PageRecord>|
                *shared == record && final(self)@ == old(self)@.publish(shared),
    {
        let shared = Arc::new(record);
        self.publish_shared(&shared);
    }

    /// Publishes a record that is already shared.
    pub fn publish_shared(&mut self, record: &Arc<PageRecord>)
        requires
            old(self)@.wf(),
        ensures
            final(self)@.wf(),
            final(self)@ == old(self)@.publish(*record),
    {
        let policy = self.policy;
        assert forall|j: int| 0 <= j < self.subscribers@.len() implies (
        #[trigger] self.subscribers@[j])@.wf() by {
            assert(self@.subscribers[j].wf());
        }
        let mut i: usize = 0;
        while i < self.subscribers.len()
            invariant
                i <= self.subscribers@.len(),
                self.policy == policy,
                policy == old(self).policy,
                self.subscribers@.len() == old(self).subscribers@.len(),
                forall|j: int| 0 <= j < self.subscribers@.len() ==> (#[trigger] self.subscribers@[j])@.wf(),
                forall|j: int|
                    0 <= j < i ==> (#[trigger] self.subscribers@[j])@ == old(self).subscribers@[j]@.deliver(
                        *record,
                        policy,
                    ),
                forall|j: int|
                    i <= j < self.subscribers@.len() ==> (#[trigger] self.subscribers@[j])@ == old(
                        self,
                    ).subscribers@[j]@,
            decreases self.subscribers@.len() - i,
        {
            let copy = share(record);
            let subscriber = &mut self.subscribers[i];
            subscriber.deliver(copy, policy);
            i += 1;
        }
        assert(self@.subscribers =~= old(self)@.publish(*record).subscribers);
    }

    /// Hands the subscriber its next record, or tells it what stands in the
    /// way: that it has missed records, that none waits, or that it is not
    /// subscribed.
    pub fn recv(&mut self, handle: usize) -> (r: Delivery)
        requires
            old(self)@.wf(),
        ensures
            final(self)@.wf(),
            final(self)@.policy == old(self)@.policy,
            handle >= old(self)@.subscribers.len() ==> r == Delivery::Closed && final(self)@
                == old(self)@,
            handle < old(self)@.subscribers.len() ==> r == old(self)@.subscribers[handle as int].receipt()
                && final(self)@.subscribers == old(self)@.subscribers.update(
                handle as int,
                old(self)@.subscribers[handle as int].received(),
            ),
    {
        if handle >= self.subscribers.len() {
            assert(self@.subscribers =~= old(self)@.subscribers);
            return Delivery::Closed;
        }
        let subscriber = &mut self.subscribers[handle];
        let r = if !subscriber.active {
            Delivery::Closed
        } else if subscriber.missed > 0 {
            let missed = subscriber.missed;
            subscriber.missed = 0;
            Delivery::Lagged(missed)
        } else {
            match subscriber.buffer.pop_front() {
                Some(record) => Delivery::Record(record),
                None => Delivery::Empty,
            }
        };
        assert(self@.subscribers =~= old(self)@.subscribers.update(
            handle as int,
            old(self)@.subscribers[handle as int].received(),
        ));
        r
    }

    /// The number of records that wait for the subscriber; none for a handle
    /// that names no subscriber.
    pub fn waiting(&self, handle: usize) -> (r: usize)
        ensures
            r == if handle < self@.subscribers.len() {
                self@.subscribers[handle as int].buffer.len()
            } else {
                0
            },
    {
        if handle < self.subscribers.len() {
            self.subscribers[handle].buffer.len()
        } else {
            0
        }
    }
}

/// A subscriber whose buffer has room for them gets every record that is
/// published, in the order of publishing, and misses none.
pub proof fn law_fan_out_in_order(
    subscriber: SubscriberModel,
    records: Seq<Arc<PageRecord>>,
    policy: Overflow,
)
    requires
        subscriber.active,
        subscriber.buffer.len() + records.len() <= subscriber.capacity,
    ensures
        subscriber.deliver_all(records, policy) == (SubscriberModel {
            buffer: subscriber.buffer + records,
            ..subscriber
        }),
    decreases records.len(),
{
    if records.len() == 0 {
        assert(subscriber.buffer + records =~= subscriber.buffer);
    } else {
        let next = subscriber.deliver(records[0], policy);
        law_fan_out_in_order(next, records.skip(1), policy);
        assert(next.buffer + records.skip(1) =~= subscriber.buffer + records);
    }
}

/// Publishing to the fan-out is publishing to each subscriber by itself:
/// what one subscriber gets does not depend on any other.
pub proof fn law_subscribers_are_independent(hub: HubModel, records: Seq<Arc<PageRecord>>, i: int)
    requires
        0 <= i < hub.subscribers.len(),
    ensures
        hub.publish_all(records).policy == hub.policy,
        hub.publish_all(records).subscribers.len() == hub.subscribers.len(),
        hub.publish_all(records).subscribers[i] == hub.subscribers[i].deliver_all(
            records,
            hub.policy,
        ),
    decreases records.len(),
{
    if records.len() > 0 {
        law_subscribers_are_independent(hub.publish(records[0]), records.skip(1), i);
    }
}

/// A buffer never holds more than its capacity, whatever is published, and a
/// record that is published to a subscriber with any room at all is the
/// newest in its buffer.
pub proof fn law_buffers_stay_bounded(
    subscriber: SubscriberModel,
    record: Arc<PageRecord>,
    policy: Overflow,
)
    requires
        subscriber.wf(),
    ensures
        subscriber.deliver(record, policy).wf(),
        subscriber.deliver(record, policy).capacity == subscriber.capacity,
        (subscriber.active && subscriber.capacity > 0) ==> subscriber.deliver(
            record,
            policy,
        ).buffer.last() == record,
        policy == Overflow::DropOldest ==> subscriber.deliver(record, policy).missed
            == subscriber.missed,
{
}

} // verus!
