use vstd::prelude::*;

use std::collections::VecDeque;

use crate::pollable_iterator::PollableIterator;

verus! {

/// A closable FIFO queue: an ordered buffer of items plus a one-way
/// `closed` flag.  It is a sink (`push`, `close`) and at the same time a
/// completion-aware sequence (`next`, `is_done`): it is done exactly
/// when it is closed and drained.
#[derive(Debug, Eq, PartialEq)]
pub struct PollableQueue<T> {
    queue: VecDeque<T>,
    closed: bool,
}

impl<T> PollableQueue<T> {
    /// The buffered items, oldest first.
    pub closed spec fn buffer(&self) -> Seq<T> {
        self.queue@
    }

    /// Whether `close` has been called.
    pub closed spec fn spec_closed(&self) -> bool {
        self.closed
    }

    /// A fresh queue: empty and open.
    pub fn new() -> (q: Self)
        ensures
            q.buffer() == Seq::<T>::empty(),
            !q.spec_closed(),
    {
        PollableQueue { queue: VecDeque::new(), closed: false }
    }

    /// Append one item at the end of the buffer.  Pushing into a closed
    /// queue is a caller error, so an open queue is demanded.
    pub fn push(&mut self, t: T)
        requires
            !old(self).spec_closed(),
        ensures
            final(self).buffer() == old(self).buffer().push(t),
            !final(self).spec_closed(),
    {
        self.queue.push_back(t);
    }

    /// Append one item, rejecting it (and leaving the queue unchanged)
    /// if the queue is closed.
    pub fn try_push(&mut self, t: T) -> (accepted: bool)
        ensures
            accepted == !old(self).spec_closed(),
            accepted ==> final(self).buffer() == old(self).buffer().push(t)
                && !final(self).spec_closed(),
            !accepted ==> *final(self) == *old(self),
    {
        if self.closed {
            false
        } else {
            self.queue.push_back(t);
            true
        }
    }

    /// Append a batch of items in order.
    pub fn extend(&mut self, items: Vec<T>)
        requires
            !old(self).spec_closed(),
        ensures
            final(self).buffer() == old(self).buffer() + items@,
            !final(self).spec_closed(),
    {
        let ghost all: Seq<T> = items@;
        let mut rest = items;
        while rest.len() > 0
            invariant
                !self.spec_closed(),
                self.buffer() + rest@ == old(self).buffer() + all,
            decreases rest.len(),
        {
            let t = rest.remove(0);
            self.queue.push_back(t);
            proof {
                assert(self.buffer() + rest@ =~= old(self).buffer() + all);
            }
        }
        proof {
            assert(self.buffer() =~= self.buffer() + rest@);
        }
    }

    /// Mark the queue closed.  Buffered items stay pollable; only new
    /// input is refused from now on.  Idempotent.
    pub fn close(&mut self)
        ensures
            final(self).buffer() == old(self).buffer(),
            final(self).spec_closed(),
    {
        self.closed = true;
    }

    /// Whether `close` has been called.
    pub fn closed(&self) -> (r: bool)
        ensures
            r == self.spec_closed(),
    {
        self.closed
    }

    /// A queue holding the given items, oldest first, still open.
    pub fn from_vec(items: Vec<T>) -> (q: Self)
        ensures
            q.buffer() == items@,
            !q.spec_closed(),
    {
        let mut q = PollableQueue::new();
        q.extend(items);
        proof {
            assert(q.buffer() =~= items@);
        }
        q
    }
}

impl<T> Default for PollableQueue<T> {
    /// A fresh queue: empty and open.
    fn default() -> (q: Self)
        ensures
            q.buffer() == Seq::<T>::empty(),
            !q.spec_closed(),
    {
        PollableQueue::new()
    }
}

impl<T> PollableIterator for PollableQueue<T> {
    type Item = T;

    open spec fn spec_done(&self) -> bool {
        self.spec_closed() && self.buffer().len() == 0
    }

    fn next(&mut self) -> (r: Option<T>)
        ensures
            old(self).buffer().len() == 0 ==> r is None && final(self).buffer() == old(
                self,
            ).buffer() && final(self).spec_closed() == old(self).spec_closed(),
            old(self).buffer().len() > 0 ==> r == Some(old(self).buffer()[0])
                && final(self).buffer() == old(self).buffer().drop_first()
                && final(self).spec_closed() == old(self).spec_closed(),
    {
        self.queue.pop_front()
    }

    fn is_done(&self) -> (r: bool) {
        self.closed && self.queue.len() == 0
    }
}

} // verus!
