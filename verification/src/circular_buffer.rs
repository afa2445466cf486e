//! Overwriting bounded FIFO for audio samples.
//!
//! The buffer holds at most `capacity` items. A full buffer evicts its
//! oldest items to make room, so a producer never blocks and never fails;
//! a consumer never blocks but may find the buffer empty. Items leave in
//! the order they entered, minus any overwritten by overflow.
//!
//! This type is sequential; the shell around the library shares one
//! instance between the decoder thread and the audio thread behind a
//! mutex.

use std::collections::VecDeque;
use vstd::prelude::*;

verus! {

/// Contents after a single push: a full buffer loses its oldest item.
pub open spec fn push_model<T>(v: Seq<T>, item: T, cap: nat) -> Seq<T> {
    if v.len() >= cap {
        v.drop_first().push(item)
    } else {
        v.push(item)
    }
}

/// Contents after a batch push: of everything ever in the buffer plus the
/// new items, only the most recent `cap` survive, in order.
pub open spec fn push_slice_model<T>(v: Seq<T>, items: Seq<T>, cap: nat) -> Seq<T> {
    let total = v.len() + items.len();
    if total <= cap {
        v + items
    } else {
        (v + items).skip(total - cap)
    }
}

/// Bounded FIFO that overwrites its oldest data when full. Push
/// operations never block and never fail.
pub struct CircularBuffer<T> {
    inner: VecDeque<T>,
    capacity: usize,
}

impl<T> View for CircularBuffer<T> {
    type V = Seq<T>;

    closed spec fn view(&self) -> Seq<T> {
        self.inner@
    }
}

impl<T> CircularBuffer<T> {
    /// Greatest number of items the buffer will hold.
    pub closed spec fn cap(&self) -> nat {
        self.capacity as nat
    }

    /// The buffer never holds more than its capacity, and has room for at
    /// least one item.
    pub open spec fn wf(&self) -> bool {
        &&& self@.len() <= self.cap()
        &&& self.cap() >= 1
    }

    /// An empty buffer with room for `capacity` items.
    pub fn new(capacity: usize) -> (buffer: CircularBuffer<T>)
        requires
            capacity >= 1,
        ensures
            buffer.wf(),
            buffer@ == Seq::<T>::empty(),
            buffer.cap() == capacity,
    {
        CircularBuffer { inner: VecDeque::with_capacity(capacity), capacity }
    }

    /// Append a single item, evicting the oldest when full.
    pub fn push(&mut self, item: T)
        requires
            old(self).wf(),
        ensures
            final(self).wf(),
            final(self).cap() == old(self).cap(),
            final(self)@ == push_model(old(self)@, item, old(self).cap()),
    {
        if self.inner.len() >= self.capacity {
            self.inner.pop_front();
        }
        self.inner.push_back(item);
    }

    /// Append a batch of items; of the old contents and the batch, only
    /// the most recent `cap` items survive, in order.
    pub fn push_slice(&mut self, items: &[T])
        where
            T: Copy,
        requires
            old(self).wf(),
        ensures
            final(self).wf(),
            final(self).cap() == old(self).cap(),
            final(self)@ == push_slice_model(old(self)@, items@, old(self).cap()),
    {
        let items_len = items.len();
        if items_len >= self.capacity {
            // The batch alone exceeds the capacity: keep only its tail.
            self.inner.clear();
            let start = items_len - self.capacity;
            let mut i: usize = start;
            while i < items_len
                invariant
                    start <= i <= items_len,
                    items_len == items@.len(),
                    start == items_len - self.capacity,
                    self.capacity == old(self).cap(),
                    self.inner@ == items@.subrange(start as int, i as int),
                decreases items_len - i,
            {
                self.inner.push_back(items[i]);
                i = i + 1;
            }
            proof {
                assert(self.inner@ =~= push_slice_model(old(self)@, items@, old(self).cap()));
            }
        } else {
            // Evict just enough of the oldest items to make room.
            let available = self.capacity - self.inner.len();
            if items_len > available {
                let to_remove = items_len - available;
                let mut removed: usize = 0;
                while removed < to_remove
                    invariant
                        removed <= to_remove,
                        to_remove <= old(self)@.len(),
                        self.capacity == old(self).cap(),
                        self.inner@ == old(self)@.skip(removed as int),
                    decreases to_remove - removed,
                {
                    self.inner.pop_front();
                    proof {
                        assert(self.inner@ =~= old(self)@.skip(removed as int + 1));
                    }
                    removed = removed + 1;
                }
            }
            let evicted: usize = if items_len > available {
                items_len - available
            } else {
                0
            };
            let mut i: usize = 0;
            while i < items_len
                invariant
                    i <= items_len,
                    items_len == items@.len(),
                    items_len < self.capacity,
                    self.capacity == old(self).cap(),
                    evicted as int == if old(self)@.len() + items_len > self.capacity {
                        old(self)@.len() + items_len - self.capacity
                    } else {
                        0
                    },
                    self.inner@ == old(self)@.skip(evicted as int) + items@.subrange(0, i as int),
                decreases items_len - i,
            {
                self.inner.push_back(items[i]);
                proof {
                    assert(self.inner@ =~= old(self)@.skip(evicted as int) + items@.subrange(
                        0,
                        i as int + 1,
                    ));
                }
                i = i + 1;
            }
            proof {
                assert(items@.subrange(0, items@.len() as int) =~= items@);
                if old(self)@.len() + items@.len() > old(self).cap() {
                    assert(old(self)@.skip(evicted as int) + items@ =~= (old(self)@
                        + items@).skip(evicted as int));
                } else {
                    assert(old(self)@ + items@ =~= old(self)@.skip(0) + items@);
                }
                assert(self.inner@ =~= push_slice_model(old(self)@, items@, old(self).cap()));
            }
        }
    }

    /// Remove and return the oldest item, or nothing when empty.
    pub fn try_pop(&mut self) -> (popped: Option<T>)
        requires
            old(self).wf(),
        ensures
            final(self).wf(),
            final(self).cap() == old(self).cap(),
            old(self)@.len() == 0 ==> popped is None && final(self)@ == old(self)@,
            old(self)@.len() > 0 ==> popped == Some(old(self)@[0]) && final(self)@ == old(
                self,
            )@.drop_first(),
    {
        self.inner.pop_front()
    }

    /// Discard all items.
    pub fn clear(&mut self)
        requires
            old(self).wf(),
        ensures
            final(self).wf(),
            final(self).cap() == old(self).cap(),
            final(self)@ == Seq::<T>::empty(),
    {
        self.inner.clear();
    }

    /// Whether the buffer holds no items.
    pub fn is_empty(&self) -> (empty: bool)
        ensures
            empty == (self@.len() == 0),
    {
        self.inner.len() == 0
    }

    /// Current number of items.
    pub fn len(&self) -> (n: usize)
        ensures
            n == self@.len(),
    {
        self.inner.len()
    }
}

/// Law: however the buffer is filled, its observable length never exceeds
/// the capacity, and its contents are the most recent suffix of the old
/// contents followed by the pushed items, in first-in first-out order.
pub proof fn lemma_push_slice_keeps_latest<T>(v: Seq<T>, items: Seq<T>, cap: nat)
    requires
        v.len() <= cap,
    ensures
        push_slice_model(v, items, cap).len() <= cap,
        v.len() + items.len() <= cap ==> push_slice_model(v, items, cap) == v + items,
        v.len() + items.len() > cap ==> push_slice_model(v, items, cap) == (v + items).skip(
            v.len() + items.len() - cap,
        ),
{
}

/// Law: a single push is the batch push of one item, so the overwrite
/// policy of the two operations agrees.
pub proof fn lemma_push_is_singleton_batch<T>(v: Seq<T>, item: T, cap: nat)
    requires
        v.len() <= cap,
        cap >= 1,
    ensures
        push_model(v, item, cap) == push_slice_model(v, seq![item], cap),
{
    if v.len() >= cap {
        assert(push_model(v, item, cap) =~= (v + seq![item]).skip(v.len() + 1 - cap));
    } else {
        assert(push_model(v, item, cap) =~= v + seq![item]);
    }
}

} // verus!
