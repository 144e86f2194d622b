use std::collections::VecDeque;
use vstd::prelude::*;

use crate::entry::{EntryView, LogEntry};

verus! {

/// A fixed-capacity FIFO of entries that rejects the newest entry when full.
pub struct BoundedQueue {
    items: VecDeque<LogEntry>,
    capacity: usize,
    closed: bool,
}

/// The queue as a sequence of entry views, oldest first.
pub ghost struct QueueView {
    pub items: Seq<EntryView>,
    pub capacity: nat,
    pub closed: bool,
}

/// What the consumer is told to do next.
pub enum ConsumerStep {
    /// Hand this entry to the sink.
    Deliver(LogEntry),
    /// Nothing queued yet: sleep until woken.
    Wait,
    /// Closed and empty: stop.
    Finished,
}

/// Whether an enqueue attempt on a queue in this state succeeds.
pub open spec fn accepts(v: QueueView) -> bool {
    !v.closed && v.items.len() < v.capacity
}

/// The state after an enqueue attempt of `e`.
pub open spec fn enqueue_next(v: QueueView, e: EntryView) -> QueueView {
    if accepts(v) {
        QueueView { items: v.items.push(e), ..v }
    } else {
        v
    }
}

/// The state after the consumer asks for its next step.
pub open spec fn dequeue_next(v: QueueView) -> QueueView {
    if v.items.len() > 0 {
        QueueView { items: v.items.drop_first(), ..v }
    } else {
        v
    }
}

/// The step the consumer is given in this state.
pub open spec fn step_matches(v: QueueView, s: ConsumerStep) -> bool {
    match s {
        ConsumerStep::Deliver(e) => v.items.len() > 0 && e@ == v.items[0],
        ConsumerStep::Wait => v.items.len() == 0 && !v.closed,
        ConsumerStep::Finished => v.items.len() == 0 && v.closed,
    }
}

impl View for BoundedQueue {
    type V = QueueView;

    closed spec fn view(&self) -> QueueView {
        QueueView {
            items: self.items@.map_values(|e: LogEntry| e@),
            capacity: self.capacity as nat,
            closed: self.closed,
        }
    }
}

impl BoundedQueue {
    /// Capacity is never exceeded.
    pub open spec fn wf(&self) -> bool {
        self@.items.len() <= self@.capacity
    }

    pub fn new(capacity: usize) -> (r: Self)
        ensures
            r.wf(),
            r@ == (QueueView { items: Seq::empty(), capacity: capacity as nat, closed: false }),
    {
        let r = BoundedQueue { items: VecDeque::new(), capacity, closed: false };
        proof {
            assert(r@.items =~= Seq::<EntryView>::empty());
        }
        r
    }

    pub fn len(&self) -> (r: usize)
        ensures
            r == self@.items.len(),
    {
        self.items.len()
    }

    pub fn capacity(&self) -> (r: usize)
        ensures
            r == self@.capacity,
    {
        self.capacity
    }

    pub fn is_closed(&self) -> (r: bool)
        ensures
            r == self@.closed,
    {
        self.closed
    }

    /// Adds `entry` at the back unless the queue is closed or full; never blocks.
    pub fn try_enqueue(&mut self, entry: LogEntry) -> (r: bool)
        requires
            old(self).wf(),
        ensures
            final(self).wf(),
            r == accepts(old(self)@),
            final(self)@ == enqueue_next(old(self)@, entry@),
    {
        let ghost e = entry@;
        if self.closed || self.items.len() >= self.capacity {
            false
        } else {
            self.items.push_back(entry);
            proof {
                assert(self@.items =~= old(self)@.items.push(e));
            }
            true
        }
    }

    /// Marks the queue closed; queued entries stay for the consumer.
    pub fn close(&mut self)
        requires
            old(self).wf(),
        ensures
            final(self).wf(),
            final(self)@ == (QueueView { closed: true, ..old(self)@ }),
    {
        self.closed = true;
    }

    /// The consumer's next step: the oldest entry, a wait, or the end.
    pub fn next_step(&mut self) -> (r: ConsumerStep)
        requires
            old(self).wf(),
        ensures
            final(self).wf(),
            step_matches(old(self)@, r),
            final(self)@ == dequeue_next(old(self)@),
    {
        match self.items.pop_front() {
            Some(e) => {
                proof {
                    assert(self@.items =~= old(self)@.items.drop_first());
                }
                ConsumerStep::Deliver(e)
            },
            None => {
                if self.closed {
                    ConsumerStep::Finished
                } else {
                    ConsumerStep::Wait
                }
            },
        }
    }
}

} // verus!
