//! Rolling history of the limited-memory quasi-Newton solver.
//!
//! The solver keeps up to `m` (position-delta, gradient-delta) pairs and
//! evicts the oldest pair once the capacity is reached. `History` is that
//! fixed-capacity first-in-first-out window, generic in the entry type so
//! that the front end can store its numeric pairs directly. A ghost log of
//! everything ever recorded ties the buffer to its law: the buffer always
//! holds exactly the most recent `min(records, capacity)` entries, in the
//! order they were recorded.

use vstd::prelude::*;

verus! {

pub struct History<T> {
    buf: Vec<T>,
    cap: usize,
    log: Ghost<Seq<T>>,
}

impl<T> View for History<T> {
    type V = Seq<T>;

    closed spec fn view(&self) -> Seq<T> {
        self.buf@
    }
}

impl<T> History<T> {
    /// The fixed capacity `m` this history was created with.
    pub closed spec fn capacity(&self) -> int {
        self.cap as int
    }

    /// Every entry ever recorded, oldest first.
    pub closed spec fn log(&self) -> Seq<T> {
        self.log@
    }

    /// The buffer holds the most recent `min(log.len(), capacity)` entries
    /// of the log, oldest first, and never more than the capacity.
    pub closed spec fn wf(&self) -> bool {
        &&& 1 <= self.cap
        &&& self@.len() == if self.log@.len() <= self.cap as int {
            self.log@.len() as int
        } else {
            self.cap as int
        }
        &&& self@ == self.log@.subrange(
            self.log@.len() - self@.len(),
            self.log@.len() as int,
        )
    }

    /// An empty history with capacity `cap`.
    pub fn new(cap: usize) -> (h: History<T>)
        requires
            1 <= cap,
        ensures
            h.wf(),
            h.capacity() == cap,
            h@ == Seq::<T>::empty(),
            h.log() == Seq::<T>::empty(),
    {
        let h = History { buf: Vec::new(), cap, log: Ghost(Seq::empty()) };
        proof {
            assert(h@ =~= h.log@.subrange(0, 0));
        }
        h
    }

    /// Record one entry: append it, evicting the oldest entry if the
    /// history is already at capacity.
    pub fn push(&mut self, x: T)
        requires
            old(self).wf(),
        ensures
            final(self).wf(),
            final(self).capacity() == old(self).capacity(),
            final(self).log() == old(self).log().push(x),
            final(self)@.len() <= final(self).capacity(),
            old(self)@.len() < old(self).capacity() ==> final(self)@ == old(self)@.push(x),
            old(self)@.len() == old(self).capacity() ==> final(self)@ == old(self)@.drop_first().push(
                x,
            ),
    {
        if self.buf.len() == self.cap {
            let _evicted = self.buf.remove(0);
        }
        self.buf.push(x);
        proof {
            self.log@ = self.log@.push(x);
            assert(old(self)@.drop_first() =~= old(self)@.subrange(1, old(self)@.len() as int));
            assert(self@ =~= self.log@.subrange(self.log@.len() - self@.len(), self.log@.len() as int));
        }
    }

    /// Number of entries currently held.
    pub fn len(&self) -> (n: usize)
        ensures
            n == self@.len(),
    {
        self.buf.len()
    }

    /// The fixed capacity, as it was given to `new`.
    pub fn cap(&self) -> (c: usize)
        ensures
            c == self.capacity(),
    {
        self.cap
    }

    /// The entry at position `i`, oldest first.
    pub fn get(&self, i: usize) -> (r: &T)
        requires
            i < self@.len(),
        ensures
            *r == self@[i as int],
    {
        &self.buf[i]
    }
}

/// The history window law: however many entries have been recorded, the
/// buffer never holds more than the capacity, and what it holds is exactly
/// the tail of the record — the most recent entries, in recording order.
pub proof fn lemma_history_is_recent_window<T>(h: &History<T>)
    requires
        h.wf(),
    ensures
        h@.len() <= h.capacity(),
        h.log().len() >= h.capacity() ==> h@.len() == h.capacity(),
        h@ == h.log().subrange(h.log().len() - h@.len(), h.log().len() as int),
{
}

} // verus!
