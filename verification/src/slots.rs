//! The slot block: a fixed-size array of `N` storage slots, each either
//! holding one live value or deliberately empty, plus a live-count.

use vstd::prelude::*;

verus! {

/// A fixed block of `N` storage slots.  The first `len` slots each hold one
/// live value; the slots from `len` up to `N` are empty and are never read,
/// never dropped as values, and never exposed to callers.
///
/// Each slot is a tagged value (`Option`), so an empty slot is represented
/// explicitly rather than as raw uninitialized memory; the well-formedness
/// invariant keeps the live slots in a contiguous prefix.
#[derive(Clone, Debug)]
pub struct SlotBlock<T, const N: usize> {
    slots: Vec<Option<T>>,
    len: usize,
}

impl<T, const N: usize> SlotBlock<T, N> {
    /// Well-formedness: exactly `N` slots, of which the first `len` are
    /// occupied and the rest are empty.
    pub closed spec fn wf(&self) -> bool {
        &&& self.slots@.len() == N
        &&& self.len <= N
        &&& (forall|i: int| 0 <= i < self.len ==> (#[trigger] self.slots@[i]) is Some)
        &&& (forall|i: int| self.len <= i < N ==> (#[trigger] self.slots@[i]) is None)
    }

    /// The live values, in slot order.
    pub closed spec fn contents(&self) -> Seq<T> {
        Seq::new(self.len as nat, |i: int| self.slots@[i]->0)
    }

    /// The live prefix never exceeds the block's capacity.
    pub proof fn lemma_contents_bounded(&self)
        requires
            self.wf(),
        ensures
            self.contents().len() <= N,
    {
    }

    /// Create a block of `N` slots, all empty.
    pub fn new() -> (r: Self)
        ensures
            r.wf(),
            r.contents() == Seq::<T>::empty(),
    {
        let mut slots: Vec<Option<T>> = Vec::new();
        let mut i: usize = 0;
        while i < N
            invariant
                i <= N,
                slots@.len() == i,
                forall|j: int| 0 <= j < i ==> (#[trigger] slots@[j]) is None,
            decreases N - i,
        {
            slots.push(None);
            i = i + 1;
        }
        let r = SlotBlock { slots, len: 0 };
        proof {
            assert(r.contents() =~= Seq::<T>::empty());
        }
        r
    }

    /// Number of live slots.
    pub fn len(&self) -> (n: usize)
        ensures
            n == self.contents().len(),
    {
        self.len
    }

    /// Read-only access to the live value in slot `i`; a view past the live
    /// prefix can never be produced.
    pub fn get(&self, i: usize) -> (r: &T)
        requires
            self.wf(),
            i < self.contents().len(),
        ensures
            *r == self.contents()[i as int],
    {
        self.slots[i].as_ref().unwrap()
    }

    /// Shift the live slots `[i, len)` one position toward the end, then
    /// write `value` into slot `i`.  Requires a free slot.
    pub fn insert_value(&mut self, i: usize, value: T)
        requires
            old(self).wf(),
            old(self).contents().len() < N,
            i <= old(self).contents().len(),
        ensures
            final(self).wf(),
            final(self).contents() == old(self).contents().insert(i as int, value),
    {
        self.slots.insert(i, Some(value));
        // Slot `N - 1` was empty, so the slot pushed past the end by the
        // shift holds no live value; discarding it restores the block to
        // exactly `N` slots.
        let _ = self.slots.pop();
        self.len = self.len + 1;
        proof {
            assert forall|j: int| 0 <= j < self.len implies (#[trigger] self.slots@[j]) is Some by {
                assert(self.slots@[j] == old(self).slots@.insert(i as int, Some(value))[j]);
            }
            assert forall|j: int| self.len <= j < N implies (#[trigger] self.slots@[j]) is None by {
                assert(self.slots@[j] == old(self).slots@.insert(i as int, Some(value))[j]);
            }
            assert(self.contents() =~= old(self).contents().insert(i as int, value));
        }
    }

    /// Move the live value out of slot `i`, shifting the live slots above it
    /// one position toward the start; the vacated slot at the end of the
    /// live prefix becomes empty again.
    pub fn remove_value(&mut self, i: usize) -> (r: T)
        requires
            old(self).wf(),
            i < old(self).contents().len(),
        ensures
            final(self).wf(),
            final(self).contents() == old(self).contents().remove(i as int),
            r == old(self).contents()[i as int],
    {
        let slot = self.slots.remove(i);
        self.slots.push(None);
        self.len = self.len - 1;
        proof {
            assert forall|j: int| 0 <= j < self.len implies (#[trigger] self.slots@[j]) is Some by {
                assert(self.slots@[j] == old(self).slots@.remove(i as int).push(None)[j]);
            }
            assert forall|j: int| self.len <= j < N implies (#[trigger] self.slots@[j]) is None by {
                assert(self.slots@[j] == old(self).slots@.remove(i as int).push(None)[j]);
            }
            assert(self.contents() =~= old(self).contents().remove(i as int));
        }
        slot.unwrap()
    }
}

} // verus!
