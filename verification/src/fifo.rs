//! A first-in first-out queue of fixed capacity in a ring buffer.
use vstd::prelude::*;

verus! {

/// A queue of at most `CAP` items.
pub struct FifoQueue<T, const CAP: usize> {
    pub queue: [T; CAP],
    /// Slot that the next push fills.
    pub push_head: usize,
    /// Slot that the next pop empties.
    pub pop_head: usize,
    pub length: usize,
}

/// The slot `i` places after slot `start` in a ring of `cap` slots.
pub open spec fn ring_slot(start: int, i: int, cap: int) -> int {
    if start + i < cap {
        start + i
    } else {
        start + i - cap
    }
}

impl<T, const CAP: usize> View for FifoQueue<T, CAP> {
    type V = Seq<T>;

    /// The items, oldest first.
    open spec fn view(&self) -> Seq<T> {
        Seq::new(
            self.length as nat,
            |i: int| self.queue[ring_slot(self.pop_head as int, i, CAP as int)],
        )
    }
}

impl<T, const CAP: usize> FifoQueue<T, CAP> {
    /// The heads lie in the ring, and the push head is `length` slots after the pop head.
    pub open spec fn wf(self) -> bool {
        &&& self.length <= CAP
        &&& CAP > 0 ==> self.pop_head < CAP
        &&& CAP > 0 ==> self.push_head == ring_slot(
            self.pop_head as int,
            if self.length == CAP { 0 } else { self.length as int },
            CAP as int,
        )
        &&& CAP == 0 ==> self.pop_head == 0 && self.push_head == 0
    }

    /// The queue after `item` was pushed, slot by slot.
    pub open spec fn push_spec(self, item: T) -> Self {
        FifoQueue {
            queue: vstd::array::spec_array_update(self.queue, self.push_head as int, item),
            push_head: if self.push_head + 1 == CAP {
                0
            } else {
                (self.push_head + 1) as usize
            },
            pop_head: self.pop_head,
            length: (self.length + 1) as usize,
        }
    }

    /// The queue after its oldest item was popped, slot by slot.
    pub open spec fn pop_spec(self) -> Self {
        FifoQueue {
            queue: self.queue,
            push_head: self.push_head,
            pop_head: if self.pop_head + 1 == CAP {
                0
            } else {
                (self.pop_head + 1) as usize
            },
            length: (self.length - 1) as usize,
        }
    }

    /// The queue after it was cleared, slot by slot.
    pub open spec fn clear_spec(self) -> Self {
        FifoQueue { queue: self.queue, push_head: self.pop_head, pop_head: self.pop_head, length: 0 }
    }

    /// The queue after the item `rel` places behind the oldest was replaced, slot by slot.
    pub open spec fn set_spec(self, rel: int, item: T) -> Self {
        FifoQueue {
            queue: vstd::array::spec_array_update(
                self.queue,
                ring_slot(self.pop_head as int, rel, CAP as int),
                item,
            ),
            ..self
        }
    }

    /// A push appends to the sequence of items.
    pub proof fn lemma_push_view(self, item: T)
        requires
            self.wf(),
            self.length < CAP,
        ensures
            self.push_spec(item).wf(),
            self.push_spec(item)@ == self@.push(item),
    {
        let q = self.push_spec(item);
        assert forall|i: int| 0 <= i < q.length implies q@[i] == self@.push(item)[i] by {
            let k = ring_slot(self.pop_head as int, i, CAP as int);
            assert(0 <= k < CAP);
            if i < self.length {
                assert(k != self.push_head);
            }
        }
        assert(q@ =~= self@.push(item));
    }

    /// A pop removes the first of the sequence of items.
    pub proof fn lemma_pop_view(self)
        requires
            self.wf(),
            self.length > 0,
        ensures
            self.pop_spec().wf(),
            self.pop_spec()@ == self@.drop_first(),
            self@[0] == self.queue[self.pop_head as int],
    {
        let q = self.pop_spec();
        assert forall|i: int| 0 <= i < q.length implies q@[i] == self@.drop_first()[i] by {
            assert(ring_slot(q.pop_head as int, i, CAP as int) == ring_slot(
                self.pop_head as int,
                i + 1,
                CAP as int,
            ));
        }
        assert(q@ =~= self@.drop_first());
    }

    /// Replacing an item replaces it in the sequence of items.
    pub proof fn lemma_set_view(self, rel: int, item: T)
        requires
            self.wf(),
            0 <= rel < self.length,
        ensures
            self.set_spec(rel, item).wf(),
            self.set_spec(rel, item)@ == self@.update(rel, item),
    {
        let q = self.set_spec(rel, item);
        let k = ring_slot(self.pop_head as int, rel, CAP as int);
        assert(0 <= k < CAP);
        assert forall|i: int| 0 <= i < q.length implies q@[i] == self@.update(rel, item)[i] by {
            let j = ring_slot(self.pop_head as int, i, CAP as int);
            assert(0 <= j < CAP);
            assert(i != rel ==> j != k);
        }
        assert(q@ =~= self@.update(rel, item));
    }

    /// Appends `item`.  The queue must not be full.
    pub fn push(&mut self, item: T)
        requires
            old(self).wf(),
            old(self)@.len() < CAP,
        ensures
            final(self).wf(),
            final(self)@ == old(self)@.push(item),
            *final(self) =~= old(self).push_spec(item),
    {
        proof {
            self.lemma_push_view(item);
        }
        self.queue[self.push_head] = item;
        self.push_head = if self.push_head + 1 == CAP {
            0
        } else {
            self.push_head + 1
        };
        self.length = self.length + 1;
    }

    /// Number of items.
    pub fn len(&self) -> (n: usize)
        ensures
            n == self@.len(),
            n == self.length,
    {
        self.length
    }

    /// Whether the queue holds nothing.
    pub fn is_empty(&self) -> (b: bool)
        ensures
            b == (self@.len() == 0),
            b == (self.length == 0),
    {
        self.length == 0
    }

    /// Drops every item.
    pub fn clear(&mut self)
        requires
            old(self).wf(),
        ensures
            final(self).wf(),
            final(self)@ == Seq::<T>::empty(),
            *final(self) == old(self).clear_spec(),
    {
        self.push_head = self.pop_head;
        self.length = 0;
        assert(self@ =~= Seq::<T>::empty());
    }

    /// Slot of the item `rel` places behind the oldest.
    fn slot_of(&self, rel: usize) -> (k: usize)
        requires
            self.wf(),
            rel < self.length,
        ensures
            k == ring_slot(self.pop_head as int, rel as int, CAP as int),
            k < CAP,
    {
        if rel < CAP - self.pop_head {
            self.pop_head + rel
        } else {
            rel - (CAP - self.pop_head)
        }
    }

    /// The item `rel` places behind the oldest, if there is one.
    pub fn get_after_pop_head(&self, rel: usize) -> (r: Option<&T>)
        requires
            self.wf(),
        ensures
            rel < self@.len() ==> r == Some(&self@[rel as int]),
            rel >= self@.len() ==> r is None,
    {
        if self.len() <= rel {
            return None;
        }
        let k = self.slot_of(rel);
        Some(&self.queue[k])
    }

    /// The item `rel` places behind the oldest, if there is one, to be overwritten in place.
    pub fn get_mut_after_pop_head(&mut self, rel: usize) -> (r: Option<&mut T>)
        requires
            old(self).wf(),
        ensures
            final(self).wf(),
            match r {
                Some(x) => rel < old(self)@.len() && *x == old(self)@[rel as int] && *final(self)
                    =~= old(self).set_spec(rel as int, *final(x)) && final(self)@ == old(
                    self,
                )@.update(rel as int, *final(x)),
                None => rel >= old(self)@.len() && *final(self) == *old(self),
            },
    {
        if self.len() <= rel {
            return None;
        }
        let k = self.slot_of(rel);
        proof {
            assert forall|item: T| #[trigger]
                old(self).set_spec(rel as int, item)@ == old(self)@.update(rel as int, item)
                && old(self).set_spec(rel as int, item).wf() by {
                old(self).lemma_set_view(rel as int, item);
            }
        }
        Some(&mut self.queue[k])
    }

    /// Replaces the item `rel` places behind the oldest by `item`, if there is one;
    /// says whether there was.
    pub fn set_after_pop_head(&mut self, rel: usize, item: T) -> (done: bool)
        requires
            old(self).wf(),
        ensures
            final(self).wf(),
            done == (rel < old(self)@.len()),
            done ==> final(self)@ == old(self)@.update(rel as int, item),
            done ==> *final(self) =~= old(self).set_spec(rel as int, item),
            !done ==> *final(self) == *old(self),
    {
        if self.len() <= rel {
            return false;
        }
        proof {
            self.lemma_set_view(rel as int, item);
        }
        let k = self.slot_of(rel);
        self.queue[k] = item;
        true
    }
}

impl<T: Copy + Default, const CAP: usize> FifoQueue<T, CAP> {
    /// An empty queue.  Every slot holds the default item.
    pub fn new() -> (r: Self)
        ensures
            r.wf(),
            r@ == Seq::<T>::empty(),
            r.push_head == 0,
            r.pop_head == 0,
            r.length == 0,
            forall|i: int| 0 <= i < CAP ==> call_ensures(T::default, (), #[trigger] r.queue[i]),
    {
        let r = FifoQueue { queue: [T::default();CAP], push_head: 0, pop_head: 0, length: 0 };
        assert(r@ =~= Seq::<T>::empty());
        r
    }

    /// Removes and returns the oldest item, if there is one.
    pub fn pop(&mut self) -> (r: Option<T>)
        requires
            old(self).wf(),
        ensures
            final(self).wf(),
            old(self)@.len() == 0 ==> r is None && *final(self) == *old(self),
            old(self)@.len() > 0 ==> r == Some(old(self)@[0]) && final(self)@ == old(
                self,
            )@.drop_first() && *final(self) == old(self).pop_spec(),
    {
        if self.is_empty() {
            return None;
        }
        proof {
            self.lemma_pop_view();
        }
        let v = self.queue[self.pop_head];
        self.pop_head = if self.pop_head + 1 == CAP {
            0
        } else {
            self.pop_head + 1
        };
        self.length = self.length - 1;
        Some(v)
    }
}

} // verus!
