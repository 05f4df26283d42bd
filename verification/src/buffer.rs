//! A bounded write-behind buffer: records wait in arrival order, and once more than
//! `BUFFER_SIZE` wait, the oldest leaves to be written out.

use std::collections::VecDeque;
use vstd::prelude::*;

verus! {

/// How many records a buffer keeps back.
pub const BUFFER_SIZE: usize = 100;

/// What pushing `x` does to the buffered records `items`: `x` joins at the back, and
/// where that makes more than `BUFFER_SIZE`, the front record leaves.
pub open spec fn buffer_push<T>(items: Seq<T>, x: T) -> (Seq<T>, Option<T>) {
    let pushed = items.push(x);
    if pushed.len() > BUFFER_SIZE {
        (pushed.drop_first(), Some(pushed[0]))
    } else {
        (pushed, None)
    }
}

/// Records waiting to be written, oldest first.
pub struct RecordBuffer<T> {
    items: VecDeque<T>,
}

impl<T> View for RecordBuffer<T> {
    type V = Seq<T>;

    closed spec fn view(&self) -> Seq<T> {
        self.items@
    }
}

impl<T> RecordBuffer<T> {
    /// At most `BUFFER_SIZE` records wait.
    pub open spec fn wf(&self) -> bool {
        self@.len() <= BUFFER_SIZE
    }

    /// An empty buffer.
    pub fn new() -> (r: Self)
        ensures
            r.wf(),
            r@ == Seq::<T>::empty(),
    {
        RecordBuffer { items: VecDeque::new() }
    }

    /// Number of waiting records.
    pub fn len(&self) -> (r: usize)
        ensures
            r == self@.len(),
    {
        self.items.len()
    }

    /// The `i`-th waiting record, oldest first.
    pub fn get(&self, i: usize) -> (r: &T)
        requires
            i < self@.len(),
        ensures
            *r == self@[i as int],
    {
        &self.items[i]
    }

    /// Adds `x` at the back; returns the oldest record when it has to leave.
    pub fn push(&mut self, x: T) -> (evicted: Option<T>)
        requires
            old(self).wf(),
        ensures
            final(self).wf(),
            (final(self)@, evicted) == buffer_push(old(self)@, x),
    {
        self.items.push_back(x);
        if self.items.len() > BUFFER_SIZE {
            self.items.pop_front()
        } else {
            None
        }
    }
}

} // verus!
