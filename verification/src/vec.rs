use vstd::prelude::*;

verus! {

/// A vector that holds at most `N` elements.
///
/// The elements live in a growable buffer; the operations that add
/// elements never take it past `N` elements: they either report failure
/// or demand room in their precondition.
pub struct Vec<T, const N: usize> {
    buffer: std::vec::Vec<T>,
}

impl<T, const N: usize> View for Vec<T, N> {
    type V = Seq<T>;

    /// The elements held, in order.
    closed spec fn view(&self) -> Seq<T> {
        self.buffer@
    }
}

/// What remains of `s` after its element at `i` is taken out and the last
/// element is moved into its place.
pub open spec fn swap_removed<T>(s: Seq<T>, i: int) -> Seq<T> {
    s.update(i, s.last()).drop_last()
}

/// `s` shortened to its first `n` elements, or `s` itself where it is no
/// longer than `n`.
pub open spec fn truncated<T>(s: Seq<T>, n: int) -> Seq<T> {
    if n < s.len() {
        s.take(n)
    } else {
        s
    }
}

/// `t` is `s` followed by a clone of each element of `o`, in order.
pub open spec fn extended_by_clones<T: Clone>(s: Seq<T>, o: Seq<T>, t: Seq<T>) -> bool {
    &&& t.len() == s.len() + o.len()
    &&& t.take(s.len() as int) == s
    &&& forall|i: int| 0 <= i < o.len() ==> cloned::<T>(o[i], #[trigger] t[s.len() + i])
}

impl<T, const N: usize> Vec<T, N> {
    /// Well-formedness: the vector holds no more than `N` elements.
    pub open spec fn wf(&self) -> bool {
        self@.len() <= N
    }

    /// Creates an empty vector.
    pub fn new() -> (v: Self)
        ensures
            v.wf(),
            v@ == Seq::<T>::empty(),
    {
        Vec { buffer: std::vec::Vec::new() }
    }

    /// The number of elements held.
    pub fn len(&self) -> (n: usize)
        ensures
            n == self@.len(),
    {
        self.buffer.len()
    }

    /// The elements held, as a slice.
    pub fn as_slice(&self) -> (s: &[T])
        ensures
            s@ == self@,
    {
        self.buffer.as_slice()
    }

    /// The elements held, as a mutable slice: what is written through it
    /// is what the vector holds afterwards.
    pub fn as_mut_slice(&mut self) -> (s: &mut [T])
        ensures
            s@ == old(self)@,
            final(self)@ == final(s)@,
    {
        self.buffer.as_mut_slice()
    }

    /// The most elements the vector can hold.
    pub fn capacity(&self) -> (c: usize)
        ensures
            c == N,
    {
        N
    }

    /// Whether the vector holds `N` elements.
    pub fn is_full(&self) -> (b: bool)
        ensures
            b == (self@.len() == N),
    {
        self.len() == self.capacity()
    }

    /// Appends `item`, which the caller guarantees fits.
    pub fn push_unchecked(&mut self, item: T)
        requires
            old(self)@.len() < N,
        ensures
            final(self)@ == old(self)@.push(item),
            final(self).wf(),
    {
        self.buffer.push(item);
    }

    /// Appends `item` if there is room; hands it back otherwise.
    pub fn push(&mut self, item: T) -> (r: Result<(), T>)
        ensures
            old(self)@.len() < N ==> r == Ok::<(), T>(()) && final(self)@ == old(self)@.push(item),
            old(self)@.len() >= N ==> r == Err::<(), T>(item) && final(self)@ == old(self)@,
            old(self).wf() ==> (r is Err <==> old(self)@.len() == N),
            old(self).wf() ==> final(self).wf(),
    {
        if self.len() < self.capacity() {
            self.push_unchecked(item);
            Ok(())
        } else {
            Err(item)
        }
    }

    /// Removes and returns the last element, which the caller guarantees exists.
    pub fn pop_unchecked(&mut self) -> (item: T)
        requires
            old(self)@.len() > 0,
        ensures
            item == old(self)@.last(),
            final(self)@ == old(self)@.drop_last(),
            old(self).wf() ==> final(self).wf(),
    {
        let popped = self.buffer.pop();
        proof {
            assert(self.buffer@ =~= old(self)@.drop_last());
        }
        popped.unwrap()
    }

    /// Takes out the element at `index` and moves the last element into
    /// its place; the caller guarantees that `index` is in bounds.
    fn swap_remove_unchecked(&mut self, index: usize) -> (item: T)
        requires
            index < old(self)@.len(),
        ensures
            item == old(self)@[index as int],
            final(self)@ == swap_removed(old(self)@, index as int),
    {
        let mut last = self.pop_unchecked();
        if index < self.buffer.len() {
            self.buffer.set_and_swap(index, &mut last);
        }
        proof {
            assert(self@ =~= swap_removed(old(self)@, index as int));
        }
        last
    }

    /// Takes out the element at `index` and moves the last element into
    /// its place.
    pub fn swap_remove(&mut self, index: usize) -> (item: T)
        requires
            index < old(self)@.len(),
        ensures
            item == old(self)@[index as int],
            final(self)@ == swap_removed(old(self)@, index as int),
            final(self)@.len() == old(self)@.len() - 1,
            old(self).wf() ==> final(self).wf(),
    {
        self.swap_remove_unchecked(index)
    }

    /// Shortens the vector to its first `len` elements, dropping the rest
    /// from the last one down; does nothing where it holds no more than `len`.
    pub fn truncate(&mut self, len: usize)
        ensures
            final(self)@ == truncated(old(self)@, len as int),
            old(self).wf() ==> final(self).wf(),
    {
        while len < self.buffer.len()
            invariant
                self@ == old(self)@.take(self@.len() as int),
                self@.len() <= old(self)@.len(),
                old(self)@.len() <= len ==> self@ == old(self)@,
                len <= old(self)@.len() ==> len <= self@.len(),
            decreases self@.len(),
        {
            let _dropped = self.pop_unchecked();
        }
        proof {
            if len < old(self)@.len() {
                assert(self@ =~= old(self)@.take(len as int));
            }
        }
    }

    /// Removes every element.
    pub fn clear(&mut self)
        ensures
            final(self)@ == Seq::<T>::empty(),
            final(self).wf(),
    {
        self.truncate(0);
    }

    /// Appends a clone of each element of `other`, in order, if all of them
    /// fit; otherwise leaves the vector unchanged and reports an error.
    pub fn extend_from_slice(&mut self, other: &[T]) -> (r: Result<(), ()>)
        where
            T: Clone,
        ensures
            r is Err <==> old(self)@.len() + other@.len() > N,
            r is Err ==> final(self)@ == old(self)@,
            r is Ok ==> extended_by_clones(old(self)@, other@, final(self)@),
            old(self).wf() ==> final(self).wf(),
    {
        if other.len() > N || self.len() > N - other.len() {
            // won't fit: nothing is modified
            Err(())
        } else {
            let mut i: usize = 0;
            while i < other.len()
                invariant
                    0 <= i <= other@.len(),
                    old(self)@.len() + other@.len() <= N,
                    self@.len() == old(self)@.len() + i,
                    self@.take(old(self)@.len() as int) == old(self)@,
                    forall|j: int|
                        0 <= j < i ==> cloned::<T>(other@[j], #[trigger] self@[old(self)@.len() + j]),
                decreases other@.len() - i,
            {
                let item = other[i].clone();
                proof {
                    assert(cloned::<T>(other@[i as int], item));
                }
                let ghost before = self@;
                self.push_unchecked(item);
                proof {
                    assert(self@.take(old(self)@.len() as int) =~= before.take(old(self)@.len() as int));
                }
                i = i + 1;
            }
            Ok(())
        }
    }

    /// A vector holding a clone of each element of this one.
    pub fn clone(&self) -> (v: Self)
        where
            T: Clone,
        requires
            self.wf(),
        ensures
            v.wf(),
            v@.len() == self@.len(),
            forall|i: int| 0 <= i < self@.len() ==> cloned::<T>(self@[i], #[trigger] v@[i]),
    {
        let mut new = Self::new();
        new.extend_from_slice(self.as_slice()).unwrap();
        proof {
            assert forall|i: int| 0 <= i < self@.len() implies cloned::<T>(self@[i], #[trigger] new@[i]) by {
                assert(new@[0 + i] == new@[i]);
            }
        }
        new
    }

    /// Appends each of `items`, in order; the caller guarantees they fit.
    pub fn extend(&mut self, items: std::vec::Vec<T>)
        requires
            old(self)@.len() + items@.len() <= N,
        ensures
            final(self)@ == old(self)@ + items@,
            final(self).wf(),
    {
        let ghost all = items@;
        let ghost mut taken: int = 0;
        for elem in it: items
            invariant
                it.seq() == all,
                taken == it.index(),
                old(self)@.len() + all.len() <= N,
                self@ == old(self)@ + all.take(taken),
        {
            proof {
                assert(all.take(taken + 1) =~= all.take(taken).push(elem));
                taken = taken + 1;
            }
            self.push_unchecked(elem);
        }
        proof {
            assert(all.take(taken) =~= all);
        }
    }
}

} // verus!
