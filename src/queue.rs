//! A bounded FIFO that can evict its oldest entry and remove an entry
//! found by a predicate.
use vstd::prelude::*;

use std::collections::VecDeque;

verus! {

/// A FIFO of at most `limit` entries.
pub struct FixedQueue<T> {
    data: VecDeque<T>,
    limit: usize,
}

/// The entries after the one at `i` is taken out and the last entry has
/// taken its place.
pub open spec fn swap_out<T>(s: Seq<T>, i: int) -> Seq<T> {
    s.update(i, s.last()).drop_last()
}

impl<T> FixedQueue<T> {
    /// The entries, oldest first.
    pub closed spec fn items(&self) -> Seq<T> {
        self.data@
    }

    /// The most entries the queue holds.
    pub closed spec fn limit(&self) -> nat {
        self.limit as nat
    }

    pub open spec fn wf(&self) -> bool {
        self.items().len() <= self.limit()
    }

    pub fn new(limit: usize) -> (r: FixedQueue<T>)
        ensures
            r.wf(),
            r.items() == Seq::<T>::empty(),
            r.limit() == limit,
    {
        FixedQueue { data: VecDeque::new(), limit }
    }

    /// Appends `value` if there is room; `false`, with the queue unchanged,
    /// if it is full.
    pub fn push(&mut self, value: T) -> (r: bool)
        requires
            old(self).wf(),
        ensures
            final(self).wf(),
            final(self).limit() == old(self).limit(),
            r == (old(self).items().len() < old(self).limit()),
            r ==> final(self).items() == old(self).items().push(value),
            !r ==> final(self).items() == old(self).items(),
    {
        if self.data.len() < self.limit {
            self.data.push_back(value);
            true
        } else {
            false
        }
    }

    /// Number of entries that still fit: entries and free places always
    /// add up to the limit.
    pub fn count_free(&self) -> (r: usize)
        requires
            self.wf(),
        ensures
            r == self.limit() - self.items().len(),
            self.items().len() + r == self.limit(),
    {
        self.limit - self.len()
    }

    /// Appends `value`, evicting the oldest entry if the queue is full. Only
    /// a queue with limit 0 refuses, and is left unchanged. The queue never
    /// grows beyond its limit.
    pub fn push_replace(&mut self, value: T) -> (r: bool)
        requires
            old(self).wf(),
        ensures
            final(self).wf(),
            final(self).items().len() <= final(self).limit(),
            final(self).limit() == old(self).limit(),
            r == (old(self).limit() > 0),
            old(self).items().len() < old(self).limit() ==> final(self).items() == old(self).items().push(value),
            old(self).items().len() == old(self).limit() && r ==> final(self).items() == old(self).items().drop_first().push(value),
            !r ==> final(self).items() == old(self).items(),
    {
        if self.count_free() > 0 {
            self.push(value)
        } else {
            let _ = self.data.pop_front();
            self.push(value)
        }
    }

    /// Takes out the first entry for which `predicate` holds; the last entry
    /// takes its place. At most one entry leaves; `None`, with the queue
    /// unchanged, if no entry matches.
    pub fn take_if<P: Fn(&T) -> bool>(&mut self, predicate: P) -> (r: Option<T>)
        requires
            old(self).wf(),
            forall|x: &T| predicate.requires((x,)),
        ensures
            final(self).wf(),
            final(self).limit() == old(self).limit(),
            match r {
                Some(v) => exists|i: int|
                    0 <= i < old(self).items().len() && v == old(self).items()[i] && predicate.ensures(
                        (&old(self).items()[i],),
                        true,
                    ) && (forall|j: int|
                        0 <= j < i ==> predicate.ensures((&old(self).items()[j],), false))
                        && final(self).items() == swap_out(old(self).items(), i),
                None => final(self).items() == old(self).items() && forall|j: int|
                    0 <= j < old(self).items().len() ==> predicate.ensures(
                        (&old(self).items()[j],),
                        false,
                    ),
            },
            r is Some ==> final(self).items().len() + 1 == old(self).items().len(),
            r is None ==> final(self).items().len() == old(self).items().len(),
    {
        let len = self.data.len();
        let mut i: usize = 0;
        while i < len
            invariant
                len == self.data@.len(),
                self.data@ == old(self).items(),
                self.limit == old(self).limit(),
                len <= self.limit,
                i <= len,
                forall|x: &T| predicate.requires((x,)),
                forall|j: int| 0 <= j < i ==> predicate.ensures((&self.data@[j],), false),
            decreases len - i,
        {
            let hit = predicate(&self.data[i]);
            if hit {
                let ghost s = self.data@;
                let last = self.data.pop_back();
                match last {
                    Some(last) => {
                        if i + 1 == len {
                            assert(swap_out(s, i as int) =~= s.drop_last());
                            return Some(last);
                        } else {
                            let found = self.data.remove(i);
                            self.data.insert(i, last);
                            assert(self.data@ =~= swap_out(s, i as int));
                            return found;
                        }
                    },
                    None => {
                        return None;
                    },
                }
            }
            i = i + 1;
        }
        None
    }

    pub fn len(&self) -> (r: usize)
        ensures
            r == self.items().len(),
    {
        self.data.len()
    }
}

} // verus!
