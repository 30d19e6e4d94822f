//! The sample queue shared by the decoding side and the output side.

use std::collections::VecDeque;
use vstd::prelude::*;

verus! {

/// A first-in, first-out queue of interleaved samples.
///
/// The view is the queued samples, oldest first.
pub struct SampleQueue<T> {
    items: VecDeque<T>,
}

impl<T> View for SampleQueue<T> {
    type V = Seq<T>;

    closed spec fn view(&self) -> Seq<T> {
        self.items@
    }
}

impl<T: Copy> SampleQueue<T> {
    /// An empty queue.
    pub fn new() -> (queue: Self)
        ensures
            queue@ == Seq::<T>::empty(),
    {
        SampleQueue { items: VecDeque::new() }
    }

    /// Number of queued samples.
    pub fn len(&self) -> (n: usize)
        ensures
            n == self@.len(),
    {
        self.items.len()
    }

    /// Whether nothing is queued.
    pub fn is_empty(&self) -> (empty: bool)
        ensures
            empty == (self@.len() == 0),
    {
        self.items.len() == 0
    }

    /// Appends `samples` behind everything already queued, keeping their order.
    pub fn push(&mut self, samples: &[T])
        ensures
            final(self)@ == old(self)@ + samples@,
    {
        let n: usize = samples.len();
        let mut i: usize = 0;
        while i < n
            invariant
                i <= n,
                n == samples@.len(),
                self@ == old(self)@ + samples@.subrange(0, i as int),
            decreases n - i,
        {
            self.items.push_back(samples[i]);
            i = i + 1;
        }
    }

    /// Removes and returns the oldest sample, or `None` when the queue is empty.
    pub fn pop_front(&mut self) -> (front: Option<T>)
        ensures
            old(self)@.len() == 0 ==> front is None && final(self)@ == old(self)@,
            old(self)@.len() > 0 ==> front == Some(old(self)@[0]) && final(self)@ == old(
                self,
            )@.drop_first(),
    {
        self.items.pop_front()
    }

    /// Discards everything queued.
    pub fn clear(&mut self)
        ensures
            final(self)@ == Seq::<T>::empty(),
    {
        self.items.clear()
    }
}

} // verus!
