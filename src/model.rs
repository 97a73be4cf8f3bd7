//! The mathematical model of the aggregation loop: one step per event, and a
//! run over a sequence of events.
use vstd::prelude::*;

verus! {

/// One event observed by the aggregation loop.
pub enum Event<T> {
    /// An item arrived on the queue.
    Item(T),
    /// The timer ticked.
    Tick,
    /// Every producer went away: the queue is closed.
    Close,
}

/// The pending items and the batch handed to the sink (if any) after one event.
///
/// An item is appended; once the buffer holds `capacity` items it is flushed whole.
/// A tick flushes a non-empty buffer and does nothing to an empty one. Closing empties
/// the buffer, handing it to the sink only when `flush_on_close` is set.
pub open spec fn step<T>(capacity: nat, flush_on_close: bool, pending: Seq<T>, event: Event<T>) -> (
    Seq<T>,
    Option<Seq<T>>,
) {
    match event {
        Event::Item(x) => {
            let grown = pending.push(x);
            if grown.len() >= capacity {
                (Seq::empty(), Some(grown))
            } else {
                (grown, None)
            }
        },
        Event::Tick => {
            if pending.len() == 0 {
                (pending, None)
            } else {
                (Seq::empty(), Some(pending))
            }
        },
        Event::Close => {
            if flush_on_close && pending.len() > 0 {
                (Seq::empty(), Some(pending))
            } else {
                (Seq::empty(), None)
            }
        },
    }
}

/// The batches delivered so far, extended by the batch of one step.
pub open spec fn deliver<T>(delivered: Seq<Seq<T>>, batch: Option<Seq<T>>) -> Seq<Seq<T>> {
    match batch {
        Some(b) => delivered.push(b),
        None => delivered,
    }
}

/// Pending items and delivered batches after feeding `events`, in order, to a
/// buffer that starts out holding `pending`.
pub open spec fn run<T>(capacity: nat, flush_on_close: bool, pending: Seq<T>, events: Seq<Event<T>>) -> (
    Seq<T>,
    Seq<Seq<T>>,
)
    decreases events.len(),
{
    if events.len() == 0 {
        (pending, Seq::empty())
    } else {
        let before = run(capacity, flush_on_close, pending, events.drop_last());
        let after = step(capacity, flush_on_close, before.0, events.last());
        (after.0, deliver(before.1, after.1))
    }
}

/// The events of sending `items` one after another.
pub open spec fn sends<T>(items: Seq<T>) -> Seq<Event<T>> {
    items.map_values(|x: T| Event::Item(x))
}

/// `n` timer ticks in a row.
pub open spec fn ticks<T>(n: nat) -> Seq<Event<T>> {
    Seq::new(n, |i: int| Event::Tick)
}

/// The items carried by `events`, in order.
pub open spec fn items_of<T>(events: Seq<Event<T>>) -> Seq<T>
    decreases events.len(),
{
    if events.len() == 0 {
        Seq::empty()
    } else {
        let earlier = items_of(events.drop_last());
        match events.last() {
            Event::Item(x) => earlier.push(x),
            _ => earlier,
        }
    }
}

/// Whether `events` holds a close.
pub open spec fn has_close<T>(events: Seq<Event<T>>) -> bool {
    exists|i: int| 0 <= i < events.len() && events[i] is Close
}

} // verus!
