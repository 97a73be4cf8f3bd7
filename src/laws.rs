//! Properties of the aggregation loop, proved over the model.
use vstd::prelude::*;

use crate::model::{deliver, has_close, items_of, run, sends, step, ticks, Event};

verus! {

/// Running `a` then `b` is running `a + b`.
pub proof fn lemma_run_append<T>(
    capacity: nat,
    flush_on_close: bool,
    pending: Seq<T>,
    a: Seq<Event<T>>,
    b: Seq<Event<T>>,
)
    ensures
        ({
            let first = run(capacity, flush_on_close, pending, a);
            let second = run(capacity, flush_on_close, first.0, b);
            run(capacity, flush_on_close, pending, a + b) == (second.0, first.1 + second.1)
        }),
    decreases b.len(),
{
    let first = run(capacity, flush_on_close, pending, a);
    if b.len() == 0 {
        assert(a + b =~= a);
        assert(first.1 + Seq::<Seq<T>>::empty() =~= first.1);
    } else {
        lemma_run_append(capacity, flush_on_close, pending, a, b.drop_last());
        assert((a + b).drop_last() =~= a + b.drop_last());
        assert((a + b).last() == b.last());
        let mid = run(capacity, flush_on_close, first.0, b.drop_last());
        let s = step(capacity, flush_on_close, mid.0, b.last());
        match s.1 {
            Some(batch) => {
                assert((first.1 + mid.1).push(batch) =~= first.1 + mid.1.push(batch));
            },
            None => {},
        }
    }
}

proof fn lemma_sends_drop_last<T>(items: Seq<T>)
    requires
        items.len() > 0,
    ensures
        sends(items).drop_last() == sends(items.drop_last()),
        sends(items).last() == Event::Item(items.last()),
        sends(items).len() == items.len(),
{
    assert(sends(items).drop_last() =~= sends(items.drop_last()));
}

/// Sending items that do not fill the buffer only appends them.
proof fn lemma_fill<T>(capacity: nat, flush_on_close: bool, pending: Seq<T>, items: Seq<T>)
    requires
        pending.len() + items.len() < capacity,
    ensures
        run(capacity, flush_on_close, pending, sends(items)) == (pending + items, Seq::<Seq<T>>::empty()),
    decreases items.len(),
{
    if items.len() == 0 {
        assert(pending + items =~= pending);
        assert(sends(items) =~= Seq::<Event<T>>::empty());
    } else {
        lemma_sends_drop_last(items);
        lemma_fill(capacity, flush_on_close, pending, items.drop_last());
        assert((pending + items.drop_last()).push(items.last()) =~= pending + items);
    }
}

/// Ticks on an empty buffer do nothing.
proof fn lemma_idle_ticks<T>(capacity: nat, flush_on_close: bool, n: nat)
    ensures
        run(capacity, flush_on_close, Seq::<T>::empty(), ticks::<T>(n)) == (
            Seq::<T>::empty(),
            Seq::<Seq<T>>::empty(),
        ),
    decreases n,
{
    if n > 0 {
        assert(ticks::<T>(n).drop_last() =~= ticks::<T>((n - 1) as nat));
        lemma_idle_ticks::<T>(capacity, flush_on_close, (n - 1) as nat);
    }
}

/// Capacity trigger: sending fewer than `capacity` items to an empty buffer hands
/// nothing to the sink; the item that makes `capacity` hands over exactly one
/// batch, the items in the order they were sent, and empties the buffer.
pub proof fn capacity_trigger<T>(capacity: nat, flush_on_close: bool, items: Seq<T>)
    requires
        0 < capacity,
        items.len() <= capacity,
    ensures
        items.len() < capacity ==> run(capacity, flush_on_close, Seq::empty(), sends(items)) == (
            items,
            Seq::<Seq<T>>::empty(),
        ),
        items.len() == capacity ==> run(capacity, flush_on_close, Seq::empty(), sends(items)) == (
            Seq::<T>::empty(),
            seq![items],
        ),
{
    if items.len() < capacity {
        lemma_fill(capacity, flush_on_close, Seq::empty(), items);
        assert(Seq::<T>::empty() + items =~= items);
    } else {
        lemma_sends_drop_last(items);
        lemma_fill(capacity, flush_on_close, Seq::empty(), items.drop_last());
        assert(Seq::<T>::empty() + items.drop_last() =~= items.drop_last());
        assert(items.drop_last().push(items.last()) =~= items);
        assert(Seq::<Seq<T>>::empty().push(items) =~= seq![items]);
    }
}

/// Reset after a flush: once nothing is pending (as right after a flush), sending
/// fewer than `capacity` items hands nothing more to the sink and leaves exactly
/// those items pending.
pub proof fn reset_after_flush<T>(
    capacity: nat,
    flush_on_close: bool,
    history: Seq<Event<T>>,
    items: Seq<T>,
)
    requires
        0 < capacity,
        run(capacity, flush_on_close, Seq::empty(), history).0.len() == 0,
        items.len() < capacity,
    ensures
        run(capacity, flush_on_close, Seq::empty(), history + sends(items)) == (
            items,
            run(capacity, flush_on_close, Seq::empty(), history).1,
        ),
{
    let before = run(capacity, flush_on_close, Seq::empty(), history);
    lemma_run_append(capacity, flush_on_close, Seq::empty(), history, sends(items));
    assert(before.0 =~= Seq::<T>::empty());
    lemma_fill(capacity, flush_on_close, before.0, items);
    assert(before.0 + items =~= items);
    assert(before.1 + Seq::<Seq<T>>::empty() =~= before.1);
}

/// Timer trigger: once nothing is pending, sending between one and `capacity - 1`
/// items and then letting the timer tick any positive number of times hands
/// exactly one more batch to the sink: those items, in order.
pub proof fn timer_trigger<T>(
    capacity: nat,
    flush_on_close: bool,
    history: Seq<Event<T>>,
    items: Seq<T>,
    n: nat,
)
    requires
        0 < capacity,
        run(capacity, flush_on_close, Seq::empty(), history).0.len() == 0,
        0 < items.len() < capacity,
        0 < n,
    ensures
        run(capacity, flush_on_close, Seq::empty(), history + sends(items) + ticks(n)) == (
            Seq::<T>::empty(),
            run(capacity, flush_on_close, Seq::empty(), history).1.push(items),
        ),
{
    let before = run(capacity, flush_on_close, Seq::empty(), history);
    reset_after_flush(capacity, flush_on_close, history, items);
    lemma_run_append(capacity, flush_on_close, Seq::empty(), history + sends(items), ticks(n));
    // The first tick flushes the items; the others find an empty buffer.
    let one = ticks::<T>(1);
    let rest = ticks::<T>((n - 1) as nat);
    assert(ticks::<T>(n) =~= one + rest);
    lemma_run_append(capacity, flush_on_close, items, one, rest);
    assert(one.drop_last() =~= Seq::<Event<T>>::empty());
    assert(run(capacity, flush_on_close, items, one.drop_last()) == (items, Seq::<Seq<T>>::empty()));
    assert(one.last() == Event::<T>::Tick);
    assert(Seq::<Seq<T>>::empty().push(items) =~= seq![items]);
    assert(run(capacity, flush_on_close, items, one) == (Seq::<T>::empty(), seq![items]));
    lemma_idle_ticks::<T>(capacity, flush_on_close, (n - 1) as nat);
    assert(seq![items] + Seq::<Seq<T>>::empty() =~= seq![items]);
    assert(before.1 + seq![items] =~= before.1.push(items));
}

/// No empty flush, and no batch over capacity: every batch handed to the sink holds
/// between one and `capacity` items, and fewer than `capacity` items are ever left
/// pending.
pub proof fn batches_bounded<T>(capacity: nat, flush_on_close: bool, events: Seq<Event<T>>)
    requires
        0 < capacity,
    ensures
        run(capacity, flush_on_close, Seq::empty(), events).0.len() < capacity,
        forall|i: int|
            0 <= i < run(capacity, flush_on_close, Seq::empty(), events).1.len() ==> 0 < (
            #[trigger] run(capacity, flush_on_close, Seq::empty(), events).1[i]).len() <= capacity,
    decreases events.len(),
{
    if events.len() > 0 {
        batches_bounded(capacity, flush_on_close, events.drop_last());
    }
}

/// No empty flush: while no item has been sent, the sink is never called, however
/// many ticks pass.
pub proof fn no_items_no_flush<T>(capacity: nat, flush_on_close: bool, events: Seq<Event<T>>)
    requires
        items_of(events).len() == 0,
    ensures
        run(capacity, flush_on_close, Seq::empty(), events) == (
            Seq::<T>::empty(),
            Seq::<Seq<T>>::empty(),
        ),
    decreases events.len(),
{
    if events.len() > 0 {
        match events.last() {
            Event::Item(x) => {
                assert(items_of(events).len() == items_of(events.drop_last()).len() + 1);
            },
            _ => {},
        }
        no_items_no_flush(capacity, flush_on_close, events.drop_last());
    }
}

/// One batch at a time: each event hands at most one batch to the sink.
pub proof fn one_batch_per_event<T>(capacity: nat, flush_on_close: bool, events: Seq<Event<T>>)
    ensures
        run(capacity, flush_on_close, Seq::empty(), events).1.len() <= events.len(),
    decreases events.len(),
{
    if events.len() > 0 {
        one_batch_per_event(capacity, flush_on_close, events.drop_last());
    }
}

/// Order kept, nothing lost: unless the queue closed while items were dropped on
/// close, the batches handed to the sink followed by the pending items are exactly
/// the items sent, in the order they were sent.
pub proof fn order_kept<T>(capacity: nat, flush_on_close: bool, events: Seq<Event<T>>)
    requires
        flush_on_close || !has_close(events),
    ensures
        run(capacity, flush_on_close, Seq::empty(), events).1.flatten() + run(
            capacity,
            flush_on_close,
            Seq::empty(),
            events,
        ).0 == items_of(events),
    decreases events.len(),
{
    broadcast use Seq::lemma_flatten_push;

    let r = run(capacity, flush_on_close, Seq::empty(), events);
    if events.len() == 0 {
        assert(Seq::<Seq<T>>::empty().flatten() =~= Seq::<T>::empty());
        assert(r.1.flatten() + r.0 =~= items_of(events));
    } else {
        let prefix = events.drop_last();
        if !flush_on_close {
            assert forall|i: int| 0 <= i < prefix.len() implies !(prefix[i] is Close) by {
                assert(prefix[i] == events[i]);
            }
        }
        order_kept(capacity, flush_on_close, prefix);
        let p = run(capacity, flush_on_close, Seq::empty(), prefix);
        if !flush_on_close {
            assert(!(events[events.len() - 1] is Close));
        }
        match events.last() {
            Event::Item(x) => {
                if p.0.push(x).len() >= capacity {
                    assert(p.1.push(p.0.push(x)).flatten() =~= p.1.flatten() + p.0.push(x));
                    assert(p.1.flatten() + p.0.push(x) + Seq::<T>::empty() =~= (p.1.flatten()
                        + p.0).push(x));
                } else {
                    assert(p.1.flatten() + p.0.push(x) =~= (p.1.flatten() + p.0).push(x));
                }
            },
            _ => {
                if p.0.len() > 0 {
                    assert(p.1.push(p.0).flatten() =~= p.1.flatten() + p.0);
                    assert(p.1.flatten() + p.0 + Seq::<T>::empty() =~= p.1.flatten() + p.0);
                }
            },
        }
    }
}

} // verus!
