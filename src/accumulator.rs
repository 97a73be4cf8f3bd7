//! The batch accumulator: an ordered buffer of bounded size, owned by the
//! consuming side alone.
use vstd::prelude::*;

use crate::model::{step, Event};

verus! {

/// The batch view of an optional exec batch.
pub open spec fn batch_view<T>(batch: Option<Vec<T>>) -> Option<Seq<T>> {
    match batch {
        Some(v) => Some(v@),
        None => None,
    }
}

/// Items waiting to be flushed, never as many as the capacity.
pub struct Accumulator<T> {
    cache: Vec<T>,
    capacity: usize,
}

impl<T> View for Accumulator<T> {
    type V = Seq<T>;

    closed spec fn view(&self) -> Seq<T> {
        self.cache@
    }
}

impl<T> Accumulator<T> {
    /// The configured batch size.
    pub closed spec fn capacity_spec(&self) -> nat {
        self.capacity as nat
    }

    /// The buffer holds fewer items than the capacity, which is positive.
    pub closed spec fn wf(&self) -> bool {
        0 < self.capacity && self.cache@.len() < self.capacity
    }

    /// A well-formed buffer has a positive capacity and holds fewer items than it.
    pub proof fn lemma_wf(&self)
        requires
            self.wf(),
        ensures
            0 < self.capacity_spec(),
            self@.len() < self.capacity_spec(),
    {
    }

    /// An empty buffer for batches of `capacity` items.
    pub fn new(capacity: usize) -> (r: Self)
        requires
            capacity > 0,
        ensures
            r.wf(),
            r@ == Seq::<T>::empty(),
            r.capacity_spec() == capacity,
    {
        Accumulator { cache: Vec::with_capacity(capacity), capacity }
    }

    /// The configured batch size.
    pub fn capacity(&self) -> (r: usize)
        ensures
            r == self.capacity_spec(),
    {
        self.capacity
    }

    /// The number of pending items.
    pub fn len(&self) -> (r: usize)
        ensures
            r == self@.len(),
    {
        self.cache.len()
    }

    /// Whether no item is pending.
    pub fn is_empty(&self) -> (r: bool)
        ensures
            r == (self@.len() == 0),
    {
        self.cache.len() == 0
    }

    /// The pending items, in arrival order.
    pub fn pending(&self) -> (r: &Vec<T>)
        ensures
            r@ == self@,
    {
        &self.cache
    }

    /// Detach the buffer, leaving a fresh empty one.
    fn take(&mut self) -> (r: Vec<T>)
        requires
            0 < old(self).capacity,
        ensures
            final(self).wf(),
            final(self)@ == Seq::<T>::empty(),
            final(self).capacity_spec() == old(self).capacity_spec(),
            r@ == old(self)@,
    {
        let mut batch = Vec::with_capacity(self.capacity);
        std::mem::swap(&mut self.cache, &mut batch);
        batch
    }

    /// Append an item; hand back the full batch when it reaches the capacity.
    pub fn push(&mut self, item: T) -> (r: Option<Vec<T>>)
        requires
            old(self).wf(),
        ensures
            final(self).wf(),
            final(self).capacity_spec() == old(self).capacity_spec(),
            (final(self)@, batch_view(r)) == step(
                old(self).capacity_spec(),
                false,
                old(self)@,
                Event::Item(item),
            ),
    {
        self.cache.push(item);
        if self.cache.len() == self.capacity {
            Some(self.take())
        } else {
            None
        }
    }

    /// On a timer tick: hand back the pending items, unless there are none.
    pub fn tick(&mut self) -> (r: Option<Vec<T>>)
        requires
            old(self).wf(),
        ensures
            final(self).wf(),
            final(self).capacity_spec() == old(self).capacity_spec(),
            (final(self)@, batch_view(r)) == step(
                old(self).capacity_spec(),
                false,
                old(self)@,
                Event::Tick,
            ),
    {
        if self.cache.len() == 0 {
            None
        } else {
            Some(self.take())
        }
    }

    /// On close: empty the buffer, handing back its items when `flush_on_close`
    /// is set and there are any; otherwise they are dropped.
    pub fn close(&mut self, flush_on_close: bool) -> (r: Option<Vec<T>>)
        requires
            old(self).wf(),
        ensures
            final(self).wf(),
            final(self).capacity_spec() == old(self).capacity_spec(),
            (final(self)@, batch_view(r)) == step(
                old(self).capacity_spec(),
                flush_on_close,
                old(self)@,
                Event::Close,
            ),
    {
        let batch = self.take();
        if flush_on_close && batch.len() > 0 {
            Some(batch)
        } else {
            None
        }
    }
}

} // verus!
