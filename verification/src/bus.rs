//! The event bus: a bounded broadcast channel. One publish is delivered
//! independently to every registered subscriber; each subscriber drains its
//! own fixed-capacity queue at its own pace, and a full queue silently loses
//! its oldest event rather than holding the publisher back.
//!
//! Registration is bounded: a fixed number of subscriber slots and a single
//! publisher slot, both handed out at startup and never returned.

use vstd::prelude::*;
use crate::event::ButtonEvent;

verus! {

/// The broadcast channel's state: one pending-event queue per registered
/// subscriber, plus the registration bookkeeping.
pub struct EventBus {
    /// Most events a subscriber's queue holds before the oldest is lost.
    pub capacity: usize,
    /// Number of subscriber slots.
    pub max_subscribers: usize,
    /// Pending events of each registered subscriber, oldest first.
    pub queues: Vec<Vec<ButtonEvent>>,
    /// Whether the single publisher slot has been handed out.
    pub publisher_taken: bool,
}

impl EventBus {
    /// Well-formedness: the capacity is positive, no more queues than
    /// subscriber slots, and no queue over capacity.
    pub open spec fn wf(self) -> bool {
        &&& self.capacity >= 1
        &&& self.queues@.len() <= self.max_subscribers
        &&& forall|i: int| 0 <= i < self.queues@.len() ==> self.queues@[i]@.len() <= self.capacity
    }

    /// Pending events of subscriber `i`, oldest first.
    pub open spec fn sub_queue(self, i: int) -> Seq<ButtonEvent> {
        self.queues@[i]@
    }

    /// Number of registered subscribers.
    pub open spec fn subscriber_count_spec(self) -> int {
        self.queues@.len() as int
    }

    /// What one publish leaves of one subscriber's queue: the event appended,
    /// after the oldest pending event made room if the queue was full.
    pub open spec fn queue_after_publish(
        q: Seq<ButtonEvent>,
        e: ButtonEvent,
        capacity: int,
    ) -> Seq<ButtonEvent> {
        if q.len() < capacity {
            q.push(e)
        } else {
            q.drop_first().push(e)
        }
    }

    /// An empty bus: no subscribers yet, publisher slot free.
    pub fn new(capacity: usize, max_subscribers: usize) -> (bus: EventBus)
        requires
            capacity >= 1,
        ensures
            bus.wf(),
            bus.capacity == capacity,
            bus.max_subscribers == max_subscribers,
            bus.subscriber_count_spec() == 0,
            !bus.publisher_taken,
    {
        EventBus { capacity, max_subscribers, queues: Vec::new(), publisher_taken: false }
    }

    /// Registers a subscriber and returns its slot, or `None` exactly when
    /// every slot is taken. A new subscriber starts with nothing pending and
    /// sees only events published after it registered.
    pub fn subscribe(&mut self) -> (r: Option<usize>)
        requires
            old(self).wf(),
        ensures
            final(self).wf(),
            final(self).capacity == old(self).capacity,
            final(self).max_subscribers == old(self).max_subscribers,
            final(self).publisher_taken == old(self).publisher_taken,
            r is Some <==> old(self).subscriber_count_spec() < old(self).max_subscribers,
            r is Some ==> {
                &&& r == Some(old(self).subscriber_count_spec() as usize)
                &&& final(self).subscriber_count_spec() == old(self).subscriber_count_spec() + 1
                &&& final(self).sub_queue(old(self).subscriber_count_spec())
                    == Seq::<ButtonEvent>::empty()
                &&& forall|j: int|
                    0 <= j < old(self).subscriber_count_spec()
                        ==> final(self).queues@[j] == old(self).queues@[j]
            },
            r is None ==> *final(self) == *old(self),
    {
        if self.queues.len() < self.max_subscribers {
            let slot = self.queues.len();
            self.queues.push(Vec::new());
            Some(slot)
        } else {
            None
        }
    }

    /// Hands out the single publisher slot; `false` exactly when it is
    /// already taken.
    pub fn take_publisher(&mut self) -> (r: bool)
        requires
            old(self).wf(),
        ensures
            final(self).wf(),
            r <==> !old(self).publisher_taken,
            final(self).publisher_taken,
            final(self).capacity == old(self).capacity,
            final(self).max_subscribers == old(self).max_subscribers,
            final(self).queues == old(self).queues,
    {
        let was_taken = self.publisher_taken;
        self.publisher_taken = true;
        !was_taken
    }

    /// Broadcasts one event: it is appended to every registered subscriber's
    /// queue, and a subscriber whose queue was full loses its oldest pending
    /// event instead of slowing the publisher down.
    pub fn publish(&mut self, e: ButtonEvent)
        requires
            old(self).wf(),
            old(self).publisher_taken,
        ensures
            final(self).wf(),
            final(self).capacity == old(self).capacity,
            final(self).max_subscribers == old(self).max_subscribers,
            final(self).publisher_taken,
            final(self).subscriber_count_spec() == old(self).subscriber_count_spec(),
            forall|i: int|
                0 <= i < old(self).subscriber_count_spec() ==> final(self).sub_queue(i)
                    == EventBus::queue_after_publish(
                    old(self).sub_queue(i),
                    e,
                    old(self).capacity as int,
                ),
            forall|i: int|
                0 <= i < old(self).subscriber_count_spec() ==> final(self).sub_queue(i).len() > 0
                    && final(self).sub_queue(i).last() == e,
    {
        let n = self.queues.len();
        let mut i: usize = 0;
        while i < n
            invariant
                i <= n,
                n == self.queues@.len(),
                n == old(self).queues@.len(),
                self.capacity == old(self).capacity,
                self.capacity >= 1,
                self.max_subscribers == old(self).max_subscribers,
                self.publisher_taken == old(self).publisher_taken,
                forall|j: int| i <= j < n ==> self.queues@[j] == old(self).queues@[j],
                forall|j: int| 0 <= j < n ==> old(self).queues@[j]@.len() <= self.capacity,
                forall|j: int|
                    0 <= j < i ==> self.queues@[j]@ == EventBus::queue_after_publish(
                        old(self).queues@[j]@,
                        e,
                        self.capacity as int,
                    ),
            decreases n - i,
        {
            if self.queues[i].len() == self.capacity {
                let _ = self.queues[i].remove(0);
                proof {
                    assert(old(self).queues@[i as int]@.remove(0) =~= old(
                        self,
                    ).queues@[i as int]@.drop_first());
                }
            }
            self.queues[i].push(e);
            i = i + 1;
        }
    }

    /// Takes the oldest pending event of subscriber `sub`, or `None` exactly
    /// when nothing is pending. Other subscribers are untouched.
    pub fn next_event(&mut self, sub: usize) -> (r: Option<ButtonEvent>)
        requires
            old(self).wf(),
            sub < old(self).subscriber_count_spec(),
        ensures
            final(self).wf(),
            final(self).capacity == old(self).capacity,
            final(self).max_subscribers == old(self).max_subscribers,
            final(self).publisher_taken == old(self).publisher_taken,
            final(self).subscriber_count_spec() == old(self).subscriber_count_spec(),
            forall|j: int|
                0 <= j < old(self).subscriber_count_spec() && j != sub
                    ==> final(self).queues@[j] == old(self).queues@[j],
            r is Some <==> old(self).sub_queue(sub as int).len() > 0,
            old(self).sub_queue(sub as int).len() == 0 ==> *final(self) == *old(self),
            old(self).sub_queue(sub as int).len() > 0 ==> {
                &&& r == Some(old(self).sub_queue(sub as int)[0])
                &&& final(self).sub_queue(sub as int) == old(self).sub_queue(
                    sub as int,
                ).drop_first()
            },
    {
        if self.queues[sub].len() == 0 {
            None
        } else {
            let e = self.queues[sub].remove(0);
            proof {
                assert(old(self).queues@[sub as int]@.remove(0) =~= old(
                    self,
                ).queues@[sub as int]@.drop_first());
            }
            Some(e)
        }
    }

    /// Number of registered subscribers.
    pub fn subscriber_count(&self) -> (n: usize)
        ensures
            n == self.subscriber_count_spec(),
    {
        self.queues.len()
    }

    /// Number of events pending for subscriber `sub`.
    pub fn pending_len(&self, sub: usize) -> (n: usize)
        requires
            sub < self.subscriber_count_spec(),
        ensures
            n == self.sub_queue(sub as int).len(),
    {
        self.queues[sub].len()
    }
}

} // verus!
