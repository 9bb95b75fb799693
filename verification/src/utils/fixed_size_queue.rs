use vstd::prelude::*;
use core::ops::Index;

verus! {

/// A first in, first out queue of at most `SIZE` items, stored in a ring.
pub struct FixedSizeQueue<T, const SIZE: usize> {
    data: Vec<T>,
    start: usize,
    length: usize,
}

impl<T, const SIZE: usize> FixedSizeQueue<T, SIZE> {
    /// The ring holds `SIZE` slots and the queue fits in it.
    pub closed spec fn wf(&self) -> bool {
        &&& self.data.len() == SIZE
        &&& self.length <= SIZE
        &&& (SIZE > 0 ==> self.start < SIZE)
        &&& (SIZE == 0 ==> self.start == 0)
    }

    /// The slot of the ring that holds the item at `index` of the queue.
    spec fn slot(&self, index: int) -> int {
        if self.start + index < SIZE {
            self.start + index
        } else {
            self.start + index - SIZE
        }
    }

    /// A queue holds at most `SIZE` items.
    pub proof fn lemma_len_at_most_size(&self)
        requires
            self.wf(),
        ensures
            self@.len() <= SIZE,
    {
    }

    /// The items in the queue, oldest first.
    pub closed spec fn view(&self) -> Seq<T> {
        Seq::new(self.length as nat, |i: int| self.data@[self.slot(i)])
    }

}

impl<T: Copy + Default, const SIZE: usize> FixedSizeQueue<T, SIZE> {
    fn slot_of(&self, index: usize) -> (r: usize)
        requires
            self.wf(),
            index < SIZE,
        ensures
            r == self.slot(index as int),
            r < SIZE,
    {
        if index < SIZE - self.start {
            self.start + index
        } else {
            index - (SIZE - self.start)
        }
    }

    pub fn new() -> (q: Self)
        ensures
            q.wf(),
            q@ == Seq::<T>::empty(),
    {
        let mut data: Vec<T> = Vec::new();
        while data.len() < SIZE
            invariant
                data.len() <= SIZE,
            decreases SIZE - data.len(),
        {
            data.push(T::default());
        }
        let q = FixedSizeQueue { data, start: 0, length: 0 };
        assert(q@ =~= Seq::<T>::empty());
        q
    }

    /// Adds an item at the end of the queue.
    pub fn push(&mut self, t: T)
        requires
            old(self).wf(),
            old(self)@.len() < SIZE,
        ensures
            final(self).wf(),
            final(self)@ == old(self)@.push(t),
    {
        let slot = self.slot_of(self.length);
        self.data.set(slot, t);
        self.length = self.length + 1;
        proof {
            assert(self@ =~= old(self)@.push(t));
        }
    }

    /// Takes the oldest item out of the queue.
    pub fn remove(&mut self) -> (t: T)
        requires
            old(self).wf(),
            old(self)@.len() > 0,
        ensures
            final(self).wf(),
            t == old(self)@[0],
            final(self)@ == old(self)@.drop_first(),
    {
        let t = self.data[self.start];
        self.start = if self.start + 1 == SIZE {
            0
        } else {
            self.start + 1
        };
        self.length = self.length - 1;
        proof {
            assert(self@ =~= old(self)@.drop_first());
        }
        t
    }

    pub fn clear(&mut self)
        requires
            old(self).wf(),
        ensures
            final(self).wf(),
            final(self)@ == Seq::<T>::empty(),
    {
        self.length = 0;
        self.start = 0;
        assert(self@ =~= Seq::<T>::empty());
    }

    pub fn len(&self) -> (r: usize)
        ensures
            r == self@.len(),
    {
        self.length
    }

    /// Replaces the contents of the queue with the `SIZE` items of `value`.
    pub fn fill(&mut self, value: &[T; SIZE])
        requires
            old(self).wf(),
        ensures
            final(self).wf(),
            final(self)@ == value@,
    {
        let mut i: usize = 0;
        while i < SIZE
            invariant
                self.data.len() == SIZE,
                i <= SIZE,
                forall|j: int| 0 <= j < i ==> self.data@[j] == value@[j],
            decreases SIZE - i,
        {
            self.data.set(i, value[i]);
            i = i + 1;
        }
        self.start = 0;
        self.length = SIZE;
        assert(self@ =~= value@);
    }

    /// The item at `index`, the oldest being at 0.
    pub fn get(&self, index: usize) -> (t: T)
        requires
            self.wf(),
            index < self@.len(),
        ensures
            t == self@[index as int],
    {
        self.data[self.slot_of(index)]
    }

    /// Replaces the item at `index`.
    pub fn set(&mut self, index: usize, t: T)
        requires
            old(self).wf(),
            index < old(self)@.len(),
        ensures
            final(self).wf(),
            final(self)@ == old(self)@.update(index as int, t),
    {
        let slot = self.slot_of(index);
        self.data.set(slot, t);
        proof {
            assert(self@ =~= old(self)@.update(index as int, t));
        }
    }
}

impl<T: Copy + Default, const SIZE: usize> Index<usize> for FixedSizeQueue<T, SIZE> {
    type Output = T;

    fn index(&self, index: usize) -> (r: &T)
        ensures
            *r == self@[index as int],
    {
        &self.data[self.slot_of(index)]
    }
}

impl<T: Copy + Default, const SIZE: usize> vstd::std_specs::core::IndexSpecImpl<usize> for FixedSizeQueue<T, SIZE> {
    open spec fn index_req(&self, index: &usize) -> bool {
        self.wf() && *index < self@.len()
    }
}

/// Items leave the queue in the order they entered: pushing to an empty queue and removing
/// gives the item back, and on a non-empty queue a push and a removal commute.
pub proof fn lemma_queue_fifo<T>(items: Seq<T>, t: T)
    ensures
        items.len() == 0 ==> items.push(t)[0] == t && items.push(t).drop_first() == items,
        items.len() > 0 ==> items.push(t)[0] == items[0] && items.push(t).drop_first() == items.drop_first().push(t),
{
    if items.len() == 0 {
        assert(items.push(t).drop_first() =~= items);
    } else {
        assert(items.push(t).drop_first() =~= items.drop_first().push(t));
    }
}

} // verus!
