//! The batcher: a sink that takes vectors of items, fed one item at a time.
use std::time::Duration;

use vstd::prelude::*;

use crate::accumulator::Accumulator;
use crate::model::{deliver, run, step, Event};

verus! {

/// Adapter to some client which expects to receive a vector of items.
pub trait VecReceiver {
    type Item;

    /// Take one batch. Failures are the receiver's to report: the batcher never
    /// retries a batch.
    fn receive(&mut self, items: Vec<Self::Item>);
}

/// What `Duration::from_secs` returns for a number of seconds.
pub uninterp spec fn duration_from_secs(secs: u64) -> Duration;

/// Relies on `Duration::from_secs`: the duration depends on the number of seconds alone.
pub assume_specification[ core::time::Duration::from_secs ](secs: u64) -> (r: Duration)
    ensures
        r == duration_from_secs(secs),
;

/// The batch size used by `Batcher::wrap`.
pub const DEFAULT_CAPACITY: usize = 256;

/// The interval used by `Batcher::wrap`, in seconds.
pub const DEFAULT_INTERVAL_SECS: u64 = 1;

/// Batches items together before forwarding them to a `VecReceiver`.
///
/// A batch goes to the receiver when it reaches the capacity, or on a timer tick
/// when it is not empty, whichever comes first. The receiver is called by the
/// batcher alone, one batch at a time.
pub struct Batcher<I: VecReceiver> {
    inner: I,
    cache: Accumulator<I::Item>,
    interval: Duration,
    flush_on_close: bool,
    events: Ghost<Seq<Event<I::Item>>>,
    delivered: Ghost<Seq<Seq<I::Item>>>,
}

impl<I: VecReceiver> Batcher<I> {
    /// The batch size.
    pub closed spec fn capacity_spec(&self) -> nat {
        self.cache.capacity_spec()
    }

    /// The time between two timer ticks.
    pub closed spec fn interval_spec(&self) -> Duration {
        self.interval
    }

    /// Whether pending items go to the receiver when the queue closes.
    pub closed spec fn flush_on_close_spec(&self) -> bool {
        self.flush_on_close
    }

    /// Every event this batcher has handled, in order.
    pub closed spec fn events(&self) -> Seq<Event<I::Item>> {
        self.events@
    }

    /// Every batch handed to the receiver, in order.
    pub closed spec fn delivered(&self) -> Seq<Seq<I::Item>> {
        self.delivered@
    }

    /// The items waiting for the next flush.
    pub closed spec fn pending(&self) -> Seq<I::Item> {
        self.cache@
    }

    /// The receiver.
    pub closed spec fn sink(&self) -> I {
        self.inner
    }

    /// The state is the run of the model over the events seen so far.
    pub closed spec fn wf(&self) -> bool {
        &&& self.cache.wf()
        &&& run(self.capacity_spec(), self.flush_on_close, Seq::empty(), self.events@) == (
            self.cache@,
            self.delivered@,
        )
    }

    /// Both batchers have the same configuration.
    pub open spec fn same_config(&self, other: &Self) -> bool {
        &&& self.capacity_spec() == other.capacity_spec()
        &&& self.interval_spec() == other.interval_spec()
        &&& self.flush_on_close_spec() == other.flush_on_close_spec()
    }

    /// The effect of handling `event`: the model's step, recorded.
    pub open spec fn handled(&self, before: &Self, event: Event<I::Item>) -> bool {
        let s = step(before.capacity_spec(), before.flush_on_close_spec(), before.pending(), event);
        &&& self.wf()
        &&& self.same_config(before)
        &&& self.events() == before.events().push(event)
        &&& self.pending() == s.0
        &&& self.delivered() == deliver(before.delivered(), s.1)
    }

    /// A batcher's pending items and delivered batches are those of the model run
    /// over the events it has handled, so every law of the model holds of it.
    pub proof fn lemma_follows_model(&self)
        requires
            self.wf(),
        ensures
            0 < self.capacity_spec(),
            run(self.capacity_spec(), self.flush_on_close_spec(), Seq::empty(), self.events()) == (
                self.pending(),
                self.delivered(),
            ),
    {
        self.cache.lemma_wf();
    }

    /// A batcher around `inner` with the given capacity, interval and close policy.
    pub fn with_options(inner: I, capacity: usize, interval: Duration, flush_on_close: bool) -> (r: Self)
        requires
            capacity > 0,
        ensures
            r.wf(),
            r.sink() == inner,
            r.capacity_spec() == capacity,
            r.interval_spec() == interval,
            r.flush_on_close_spec() == flush_on_close,
            r.events() == Seq::<Event<I::Item>>::empty(),
            r.delivered() == Seq::<Seq<I::Item>>::empty(),
            r.pending() == Seq::<I::Item>::empty(),
    {
        Batcher {
            inner,
            cache: Accumulator::new(capacity),
            interval,
            flush_on_close,
            events: Ghost(Seq::empty()),
            delivered: Ghost(Seq::empty()),
        }
    }

    /// A batcher around `inner` with the given batch capacity. Items are sent when
    /// the batch has reached capacity or at the set interval, whichever comes first.
    /// Items still pending when the queue closes are dropped.
    pub fn new(inner: I, capacity: usize, interval: Duration) -> (r: Self)
        requires
            capacity > 0,
        ensures
            r.wf(),
            r.sink() == inner,
            r.capacity_spec() == capacity,
            r.interval_spec() == interval,
            !r.flush_on_close_spec(),
            r.events() == Seq::<Event<I::Item>>::empty(),
            r.delivered() == Seq::<Seq<I::Item>>::empty(),
            r.pending() == Seq::<I::Item>::empty(),
    {
        Self::with_options(inner, capacity, interval, false)
    }

    /// A batcher around `inner` that sends a batch once 256 items are pending or
    /// once a second.
    pub fn wrap(inner: I) -> (r: Self)
        ensures
            r.wf(),
            r.sink() == inner,
            r.capacity_spec() == DEFAULT_CAPACITY,
            r.interval_spec() == duration_from_secs(DEFAULT_INTERVAL_SECS),
            !r.flush_on_close_spec(),
            r.events() == Seq::<Event<I::Item>>::empty(),
            r.delivered() == Seq::<Seq<I::Item>>::empty(),
            r.pending() == Seq::<I::Item>::empty(),
    {
        Self::new(inner, DEFAULT_CAPACITY, Duration::from_secs(DEFAULT_INTERVAL_SECS))
    }

    /// The batch size.
    pub fn capacity(&self) -> (r: usize)
        ensures
            r == self.capacity_spec(),
    {
        self.cache.capacity()
    }

    /// The time between two timer ticks.
    pub fn interval(&self) -> (r: Duration)
        ensures
            r == self.interval_spec(),
    {
        self.interval
    }

    /// Whether pending items go to the receiver when the queue closes.
    pub fn flush_on_close(&self) -> (r: bool)
        ensures
            r == self.flush_on_close_spec(),
    {
        self.flush_on_close
    }

    /// The items waiting for the next flush, in arrival order.
    pub fn pending_items(&self) -> (r: &Vec<I::Item>)
        ensures
            r@ == self.pending(),
    {
        self.cache.pending()
    }

    /// The receiver.
    pub fn inner(&self) -> (r: &I)
        ensures
            *r == self.sink(),
    {
        &self.inner
    }

    /// Give back the receiver; whatever is pending is dropped.
    pub fn into_inner(self) -> (r: I)
        ensures
            r == self.sink(),
    {
        self.inner
    }

    /// Hand one batch to the receiver and record it.
    fn flush(&mut self, batch: Option<Vec<I::Item>>)
        ensures
            final(self).cache == old(self).cache,
            final(self).interval == old(self).interval,
            final(self).flush_on_close == old(self).flush_on_close,
            final(self).events == old(self).events,
            final(self).delivered@ == deliver(
                old(self).delivered@,
                crate::accumulator::batch_view(batch),
            ),
    {
        if let Some(items) = batch {
            self.delivered = Ghost(self.delivered@.push(items@));
            self.inner.receive(items);
        }
    }

    /// Take a single item. When it fills the batch, the whole batch goes to the
    /// receiver before this returns.
    pub fn send(&mut self, item: I::Item)
        requires
            old(self).wf(),
        ensures
            final(self).handled(old(self), Event::Item(item)),
    {
        let ghost event = Event::Item(item);
        let batch = self.cache.push(item);
        self.events = Ghost(self.events@.push(event));
        self.flush(batch);
        proof {
            assert(self.events@.drop_last() =~= old(self).events@);
        }
    }

    /// A timer tick: the pending items, if any, go to the receiver as one batch.
    pub fn tick(&mut self)
        requires
            old(self).wf(),
        ensures
            final(self).handled(old(self), Event::Tick),
    {
        let batch = self.cache.tick();
        self.events = Ghost(self.events@.push(Event::Tick));
        self.flush(batch);
        proof {
            assert(self.events@.drop_last() =~= old(self).events@);
        }
    }

    /// The queue closed: pending items go to the receiver if the batcher was made
    /// to flush on close, and are dropped otherwise.
    pub fn close(&mut self)
        requires
            old(self).wf(),
        ensures
            final(self).handled(old(self), Event::Close),
    {
        let batch = self.cache.close(self.flush_on_close);
        self.events = Ghost(self.events@.push(Event::Close));
        self.flush(batch);
        proof {
            assert(self.events@.drop_last() =~= old(self).events@);
        }
    }
}

} // verus!
