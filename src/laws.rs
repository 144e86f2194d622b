use vstd::prelude::*;

use crate::entry::EntryView;
use crate::pipeline::{after_steps, delivered, submit_all, submit_next, CoreView};
use crate::queue::{dequeue_next, QueueView};

verus! {

/// Entries submitted by one thread into an open queue with room for all of
/// them are all enqueued, in submission order, and none is dropped.
pub proof fn submissions_kept_in_order(c: CoreView, es: Seq<EntryView>)
    requires
        !c.queue.closed,
        c.queue.items.len() + es.len() <= c.queue.capacity,
        c.next_seq + es.len() < u64::MAX,
    ensures
        submit_all(c, es).queue.items == c.queue.items + es,
        submit_all(c, es).queue.capacity == c.queue.capacity,
        !submit_all(c, es).queue.closed,
        submit_all(c, es).dropped == c.dropped,
        submit_all(c, es).next_seq == c.next_seq + es.len(),
    decreases es.len(),
{
    if es.len() > 0 {
        let c1 = submit_next(c, es[0]);
        submissions_kept_in_order(c1, es.drop_first());
        assert(c.queue.items.push(es[0]) + es.drop_first() =~= c.queue.items + es);
    } else {
        assert(c.queue.items + es =~= c.queue.items);
    }
}

/// In `n` steps the consumer hands out the first `n` queued entries, oldest first.
pub proof fn consumer_takes_oldest_first(v: QueueView, n: nat)
    requires
        n <= v.items.len(),
    ensures
        delivered(v, n) == v.items.take(n as int),
        after_steps(v, n).items == v.items.skip(n as int),
        after_steps(v, n).closed == v.closed,
    decreases n,
{
    if n > 0 {
        let v1 = dequeue_next(v);
        consumer_takes_oldest_first(v1, (n - 1) as nat);
        assert(seq![v.items[0]] + v1.items.take(n - 1) =~= v.items.take(n as int));
        assert(v1.items.skip(n - 1) =~= v.items.skip(n as int));
    } else {
        assert(v.items.take(0) =~= Seq::<EntryView>::empty());
        assert(v.items.skip(0) =~= v.items);
    }
}

/// A single producer's entries reach the sink exactly as and in the order
/// they were submitted, while the queue has room for them.
pub proof fn single_producer_order(c: CoreView, es: Seq<EntryView>)
    requires
        !c.queue.closed,
        c.queue.items.len() == 0,
        es.len() <= c.queue.capacity,
        c.next_seq + es.len() < u64::MAX,
    ensures
        delivered(submit_all(c, es).queue, es.len()) == es,
{
    submissions_kept_in_order(c, es);
    assert(c.queue.items + es =~= es);
    consumer_takes_oldest_first(submit_all(c, es).queue, es.len());
    assert(es.take(es.len() as int) =~= es);
}

/// After `es` were all enqueued and a draining shutdown closed the queue, the
/// consumer delivers every one of them before it is told to finish.
pub proof fn drain_delivers_everything(c: CoreView, es: Seq<EntryView>)
    requires
        !c.queue.closed,
        c.queue.items.len() == 0,
        es.len() <= c.queue.capacity,
        c.next_seq + es.len() < u64::MAX,
    ensures
        ({
            let closed = QueueView { closed: true, ..submit_all(c, es).queue };
            &&& delivered(closed, es.len()) == es
            &&& after_steps(closed, es.len()).items.len() == 0
            &&& after_steps(closed, es.len()).closed
        }),
{
    submissions_kept_in_order(c, es);
    assert(c.queue.items + es =~= es);
    let closed = QueueView { closed: true, ..submit_all(c, es).queue };
    consumer_takes_oldest_first(closed, es.len());
    assert(es.take(es.len() as int) =~= es);
}

/// With room for one entry, two back-to-back submissions drop at most one.
pub proof fn capacity_one_drops_at_most_one(c: CoreView, e1: EntryView, e2: EntryView)
    requires
        c.queue.capacity == 1,
        c.queue.items.len() == 0,
        !c.queue.closed,
        c.next_seq < u64::MAX,
    ensures
        submit_next(submit_next(c, e1), e2).dropped <= c.dropped + 1,
{
}

} // verus!
