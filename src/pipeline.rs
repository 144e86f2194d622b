use vstd::prelude::*;

use crate::entry::{make_entry, EntryView, LogEntry};
use crate::queue::{
    accepts, dequeue_next, enqueue_next, step_matches, BoundedQueue, ConsumerStep, QueueView,
};

verus! {

/// Where finished entries go. A write may fail; the consumer counts the
/// failure and goes on with the next entry.
pub trait Sink {
    fn write(&mut self, entry: &LogEntry) -> bool;
}

/// Queue capacity used when the host configures none.
pub const DEFAULT_QUEUE_CAPACITY: usize = 1024;

/// The process-wide logging state: the queue, the sequence counter, the
/// drop / failure / delivery counters and the lifecycle flags.
pub struct LogCore {
    queue: BoundedQueue,
    next_seq: u64,
    dropped: u64,
    sink_failures: u64,
    processed: u64,
    started: bool,
}

pub ghost struct CoreView {
    pub queue: QueueView,
    pub next_seq: nat,
    pub dropped: nat,
    pub sink_failures: nat,
    pub processed: nat,
    pub started: bool,
}

/// A counter that stops at the largest `u64` instead of wrapping.
pub open spec fn bump(n: nat) -> nat {
    if n < u64::MAX { n + 1 } else { n }
}

/// Whether a submission in this state is enqueued: the queue takes it and a
/// fresh sequence id is still available.
pub open spec fn submit_accepts(c: CoreView) -> bool {
    accepts(c.queue) && c.next_seq < u64::MAX
}

/// The state after submitting `e`; a rejected entry only bumps the drop counter.
pub open spec fn submit_next(c: CoreView, e: EntryView) -> CoreView {
    if submit_accepts(c) {
        CoreView { queue: enqueue_next(c.queue, e), next_seq: c.next_seq + 1, ..c }
    } else {
        CoreView { dropped: bump(c.dropped), ..c }
    }
}

/// Submitting the entries of `es` one after another, from one thread.
pub open spec fn submit_all(c: CoreView, es: Seq<EntryView>) -> CoreView
    decreases es.len(),
{
    if es.len() == 0 {
        c
    } else {
        submit_all(submit_next(c, es[0]), es.drop_first())
    }
}

/// The entries the consumer hands to the sink in its next `n` steps.
pub open spec fn delivered(v: QueueView, n: nat) -> Seq<EntryView>
    decreases n,
{
    if n == 0 || v.items.len() == 0 {
        Seq::empty()
    } else {
        seq![v.items[0]] + delivered(dequeue_next(v), (n - 1) as nat)
    }
}

/// The queue after the consumer's next `n` steps.
pub open spec fn after_steps(v: QueueView, n: nat) -> QueueView
    decreases n,
{
    if n == 0 {
        v
    } else {
        after_steps(dequeue_next(v), (n - 1) as nat)
    }
}

/// The entry that a submission in state `c` enqueues.
pub open spec fn submitted_entry(
    c: CoreView,
    function_name: Seq<char>,
    error_message: Seq<char>,
    traceback: Seq<char>,
    timestamp: u64,
) -> EntryView {
    EntryView {
        function_name,
        error_message,
        traceback,
        timestamp,
        sequence_id: c.next_seq as u64,
    }
}

proof fn lemma_after_steps_succ(v: QueueView, n: nat)
    ensures
        after_steps(v, n + 1) == dequeue_next(after_steps(v, n)),
    decreases n,
{
    if n > 0 {
        lemma_after_steps_succ(dequeue_next(v), (n - 1) as nat);
        assert(after_steps(v, n) == after_steps(dequeue_next(v), (n - 1) as nat));
    } else {
        assert(after_steps(dequeue_next(v), 0) == dequeue_next(v));
        assert(after_steps(v, 0) == v);
    }
}

impl View for LogCore {
    type V = CoreView;

    closed spec fn view(&self) -> CoreView {
        CoreView {
            queue: self.queue@,
            next_seq: self.next_seq as nat,
            dropped: self.dropped as nat,
            sink_failures: self.sink_failures as nat,
            processed: self.processed as nat,
            started: self.started,
        }
    }
}

impl LogCore {
    pub closed spec fn wf(&self) -> bool {
        self.queue.wf()
    }

    /// A fresh state: empty open queue, all counters at zero, consumer not started.
    pub fn new(queue_capacity: usize) -> (r: Self)
        ensures
            r.wf(),
            r@ == (CoreView {
                queue: QueueView { items: Seq::empty(), capacity: queue_capacity as nat, closed: false },
                next_seq: 0,
                dropped: 0,
                sink_failures: 0,
                processed: 0,
                started: false,
            }),
    {
        LogCore {
            queue: BoundedQueue::new(queue_capacity),
            next_seq: 0,
            dropped: 0,
            sink_failures: 0,
            processed: 0,
            started: false,
        }
    }

    /// Records an error report. It never fails and never waits: when the queue
    /// is closed or full the entry is dropped and the drop counter goes up.
    /// Returns whether the entry was enqueued. Only an enqueued entry takes a
    /// sequence id, so the ids follow the order in which entries entered the queue.
    pub fn submit(
        &mut self,
        function_name: String,
        error_message: String,
        traceback: String,
        timestamp: u64,
    ) -> (r: bool)
        requires
            old(self).wf(),
        ensures
            final(self).wf(),
            r == submit_accepts(old(self)@),
            final(self)@ == submit_next(
                old(self)@,
                submitted_entry(old(self)@, function_name@, error_message@, traceback@, timestamp),
            ),
    {
        if self.next_seq < u64::MAX {
            let entry = make_entry(function_name, error_message, traceback, timestamp, self.next_seq);
            if self.queue.try_enqueue(entry) {
                self.next_seq = self.next_seq + 1;
                return true;
            }
        }
        if self.dropped < u64::MAX {
            self.dropped = self.dropped + 1;
        }
        false
    }

    /// Marks the consumer as started. Returns true only on the first call,
    /// which is the one that must spawn the consumer.
    pub fn start(&mut self) -> (r: bool)
        requires
            old(self).wf(),
        ensures
            final(self).wf(),
            r == !old(self)@.started,
            final(self)@ == (CoreView { started: true, ..old(self)@ }),
    {
        let first = !self.started;
        self.started = true;
        first
    }

    /// Closes the queue. Returns whether the caller must now wait for the
    /// consumer to finish: only for a draining shutdown of a running consumer,
    /// on the first shutdown. A non-draining shutdown never waits.
    pub fn shutdown(&mut self, drain: bool) -> (r: bool)
        requires
            old(self).wf(),
        ensures
            final(self).wf(),
            r == (drain && old(self)@.started && !old(self)@.queue.closed),
            final(self)@ == (CoreView {
                queue: QueueView { closed: true, ..old(self)@.queue },
                ..old(self)@
            }),
    {
        let first = !self.queue.is_closed();
        self.queue.close();
        drain && self.started && first
    }

    /// The consumer's next step, taking the oldest entry off the queue.
    pub fn next_step(&mut self) -> (r: ConsumerStep)
        requires
            old(self).wf(),
        ensures
            final(self).wf(),
            step_matches(old(self)@.queue, r),
            final(self)@ == (CoreView { queue: dequeue_next(old(self)@.queue), ..old(self)@ }),
    {
        self.queue.next_step()
    }

    /// Records the outcome of one sink write.
    pub fn record_write(&mut self, ok: bool)
        requires
            old(self).wf(),
        ensures
            final(self).wf(),
            final(self)@ == (CoreView {
                processed: bump(old(self)@.processed),
                sink_failures: if ok { old(self)@.sink_failures } else { bump(old(self)@.sink_failures) },
                ..old(self)@
            }),
    {
        if self.processed < u64::MAX {
            self.processed = self.processed + 1;
        }
        if !ok && self.sink_failures < u64::MAX {
            self.sink_failures = self.sink_failures + 1;
        }
    }

    /// Hands every queued entry to `sink`, oldest first, counting each
    /// delivery and each failed write. Returns how many entries were handed out.
    pub fn drain_into<S: Sink>(&mut self, sink: &mut S) -> (r: usize)
        requires
            old(self).wf(),
        ensures
            final(self).wf(),
            r == old(self)@.queue.items.len(),
            final(self)@.queue == after_steps(old(self)@.queue, r as nat),
            final(self)@.queue.items.len() == 0,
            final(self)@.processed == if old(self)@.processed + r <= u64::MAX {
                old(self)@.processed + r
            } else {
                u64::MAX as int
            },
            final(self)@.next_seq == old(self)@.next_seq,
            final(self)@.dropped == old(self)@.dropped,
            final(self)@.started == old(self)@.started,
    {
        let ghost start = self@;
        let total = self.queued();
        let mut count: usize = 0;
        while count < total
            invariant
                self.wf(),
                total == start.queue.items.len(),
                count <= total,
                self@.queue == after_steps(start.queue, count as nat),
                self@.queue.items.len() == total - count,
                self@.processed == if start.processed + count <= u64::MAX {
                    start.processed + count
                } else {
                    u64::MAX as int
                },
                self@.next_seq == start.next_seq,
                self@.dropped == start.dropped,
                self@.started == start.started,
            decreases total - count,
        {
            proof {
                lemma_after_steps_succ(start.queue, count as nat);
            }
            if let ConsumerStep::Deliver(e) = self.next_step() {
                let ok = sink.write(&e);
                self.record_write(ok);
            }
            count = count + 1;
        }
        count
    }

    pub fn dropped(&self) -> (r: u64)
        ensures
            r == self@.dropped,
    {
        self.dropped
    }

    pub fn sink_failures(&self) -> (r: u64)
        ensures
            r == self@.sink_failures,
    {
        self.sink_failures
    }

    pub fn processed(&self) -> (r: u64)
        ensures
            r == self@.processed,
    {
        self.processed
    }

    pub fn queued(&self) -> (r: usize)
        ensures
            r == self@.queue.items.len(),
    {
        self.queue.len()
    }

    pub fn is_started(&self) -> (r: bool)
        ensures
            r == self@.started,
    {
        self.started
    }

    pub fn is_closed(&self) -> (r: bool)
        ensures
            r == self@.queue.closed,
    {
        self.queue.is_closed()
    }
}

} // verus!
