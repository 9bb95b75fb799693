use vstd::prelude::*;
use vstd::laws_eq::obeys_concrete_eq;
use vstd::std_specs::cmp::PartialEqSpec;

verus! {

/// A set of at most `SIZE` items, kept in the order they were added.
pub struct FixedSizeSet<T, const SIZE: usize> {
    pub data: [T; SIZE],
    pub size: usize,
}

impl<T, const SIZE: usize> FixedSizeSet<T, SIZE> {
    /// The items of the set, in the order they were added.
    pub open spec fn view(&self) -> Seq<T> {
        self.data@.subrange(0, self.size as int)
    }

    /// The size fits the buffer and no item occurs twice.
    pub open spec fn wf(&self) -> bool {
        &&& self.size <= SIZE
        &&& self@.no_duplicates()
    }
}

impl<T: Default + Copy + PartialEq, const SIZE: usize> FixedSizeSet<T, SIZE> {
    pub fn new() -> (set: Self)
        ensures
            set.wf(),
            set@ == Seq::<T>::empty(),
    {
        let set = Self { data: [T::default(); SIZE], size: 0 };
        assert(set@ =~= Seq::<T>::empty());
        assert(set@.no_duplicates());
        set
    }

    fn contains(&self, value: &T) -> (r: bool)
        requires
            self.wf(),
            obeys_concrete_eq::<T>(),
        ensures
            r == self@.contains(*value),
    {
        proof {
            reveal(obeys_concrete_eq);
        }
        let mut i: usize = 0;
        while i < self.size
            invariant
                self.wf(),
                i <= self.size,
                T::obeys_eq_spec(),
                forall|x: T, y: T| x.eq_spec(&y) <==> (x == y),
                forall|j: int| 0 <= j < i ==> self@[j] != *value,
            decreases self.size - i,
        {
            if self.data[i] == *value {
                assert(self@[i as int] == *value);
                return true;
            }
            i = i + 1;
        }
        false
    }

    /// Adds the value unless it is in the set already.
    pub fn add(&mut self, value: T)
        requires
            old(self).wf(),
            obeys_concrete_eq::<T>(),
            !old(self)@.contains(value) ==> old(self)@.len() < SIZE,
        ensures
            final(self).wf(),
            old(self)@.contains(value) ==> final(self)@ == old(self)@,
            !old(self)@.contains(value) ==> final(self)@ == old(self)@.push(value),
    {
        if self.contains(&value) {
            return;
        }
        self.data[self.size] = value;
        self.size = self.size + 1;
        proof {
            let s = old(self)@;
            assert(self@ =~= s.push(value));
            assert forall|a: int, b: int| 0 <= a < b < self@.len() implies self@[a] != self@[b] by {
                if b == s.len() {
                    assert(s[a] == self@[a]);
                }
            }
        }
    }

    /// Removes the value if it is in the set; tells whether it was.
    pub fn try_remove(&mut self, value: T) -> (removed: bool)
        requires
            old(self).wf(),
            obeys_concrete_eq::<T>(),
        ensures
            final(self).wf(),
            removed == old(self)@.contains(value),
            final(self)@ == old(self)@.remove_value(value),
    {
        if !self.contains(&value) || self.size == 0 {
            proof {
                old(self)@.index_of_first_ensures(value);
                assert(old(self)@.remove_value(value) =~= old(self)@);
            }
            return false;
        }
        proof {
            reveal(obeys_concrete_eq);
        }
        proof {
            old(self)@.index_of_first_ensures(value);
        }
        let ghost k = old(self)@.index_of_first(value).unwrap();
        let mut found = false;
        let mut i: usize = 0;
        while i < self.size
            invariant
                self.size <= SIZE,
                self.size == old(self).size,
                i <= self.size,
                T::obeys_eq_spec(),
                forall|x: T, y: T| x.eq_spec(&y) <==> (x == y),
                0 <= k < old(self)@.len(),
                old(self)@[k] == value,
                old(self)@.no_duplicates(),
                found <==> k < i,
                forall|j: int| 0 <= j < self.size && j < k && j < i ==> self.data@[j] == old(self).data@[j],
                forall|j: int| k <= j < i - 1 ==> self.data@[j] == old(self).data@[j + 1],
                forall|j: int| i <= j < SIZE ==> self.data@[j] == old(self).data@[j],
            decreases self.size - i,
        {
            if found {
                self.data[i - 1] = self.data[i];
            }
            if value == self.data[i] {
                assert(old(self)@[i as int] == value);
                found = true;
            }
            i = i + 1;
        }
        self.size = self.size - 1;
        proof {
            let s = old(self)@;
            assert(s.remove_value(value) =~= s.subrange(0, k).add(s.subrange(k + 1, s.len() as int)));
            assert(self@ =~= s.remove_value(value));
            assert forall|a: int, b: int| 0 <= a < b < self@.len() implies self@[a] != self@[b] by {
                let a2 = if a < k { a } else { a + 1 };
                let b2 = if b < k { b } else { b + 1 };
                assert(self@[a] == s[a2]);
                assert(self@[b] == s[b2]);
            }
        }
        true
    }

    /// The items of the set.
    pub fn as_slice(&self) -> (r: &[T])
        requires
            self.wf(),
        ensures
            r@ == self@,
    {
        vstd::slice::slice_subrange(self.data.as_slice(), 0, self.size)
    }
}

/// Adding an item that is not in the set puts it in, keeps the items distinct, and removing
/// it again gives the set back.
pub proof fn lemma_set_add_remove<T>(items: Seq<T>, value: T)
    requires
        items.no_duplicates(),
    ensures
        !items.contains(value) ==> items.push(value).remove_value(value) == items,
        !items.contains(value) ==> items.push(value).contains(value),
        !items.contains(value) ==> items.push(value).no_duplicates(),
{
    if !items.contains(value) {
        let s = items.push(value);
        assert(s[items.len() as int] == value);
        s.index_of_first_ensures(value);
        let k = s.index_of_first(value).unwrap();
        assert(k == items.len()) by {
            if k < items.len() {
                assert(items[k] == value);
            }
        }
        assert(s.remove(k) =~= items);
        assert forall|a: int, b: int| 0 <= a < b < s.len() implies s[a] != s[b] by {
            if b == items.len() {
                assert(items[a] == s[a]);
            }
        }
    }
}

} // verus!
