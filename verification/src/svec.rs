//! The sequence facade: the single public container type, generic over one
//! storage engine chosen at the type level, plus its owning iterator.

use vstd::prelude::*;

use crate::backend::{DuplicableBackend, StorageBackend};
use crate::fixed::FixedEngine;
use crate::heap::HeapEngine;
use crate::hybrid::HybridEngine;

verus! {

/// A list-like container that presents one uniform sequence API whatever
/// storage engine backs it.  The engine type is fixed for the lifetime of a
/// given facade type; the facade owns exactly one engine instance and never
/// exposes engine-internal representations.
///
/// Capacity overflow (possible only on a bounded engine) is surfaced by the
/// `try_*` operations as a rejected element; the non-`try_*` operations
/// instead require, as a precondition, that the container has room.
#[derive(Clone, Debug)]
pub struct StorageVec<B: StorageBackend> {
    engine: B,
}

/// The container configured with the fixed-capacity engine: at most `N`
/// elements, no heap use, pushes beyond `N` rejected.
pub type FixedStorageVec<T, const N: usize> = StorageVec<FixedEngine<T, N>>;

/// The container configured with the heap engine: unbounded growth.
pub type HeapStorageVec<T> = StorageVec<HeapEngine<T>>;

/// The container configured with the hybrid engine: inline up to `N`
/// elements, then a one-way spill to the heap; pushes never rejected.
pub type HybridStorageVec<T, const N: usize> = StorageVec<HybridEngine<T, N>>;

impl<B: StorageBackend> StorageVec<B> {
    /// The stored sequence of elements, in order.
    pub closed spec fn contents(&self) -> Seq<B::Item> {
        self.engine.contents()
    }

    /// The container's invariant: its engine's invariant.  Constructors
    /// establish it and every operation preserves it.
    pub closed spec fn inv(&self) -> bool {
        self.engine.inv()
    }

    /// Whether one more element can be added without rejection.
    pub open spec fn has_room(&self) -> bool {
        match B::capacity() {
            Some(c) => self.contents().len() < c,
            None => true,
        }
    }

    /// Create an empty container.
    pub fn new() -> (r: Self)
        ensures
            r.inv(),
            r.contents() == Seq::<B::Item>::empty(),
    {
        StorageVec { engine: B::empty() }
    }

    /// The number of stored elements.
    pub fn len(&self) -> (n: usize)
        requires
            self.inv(),
        ensures
            n == self.contents().len(),
    {
        self.engine.length()
    }

    /// Whether the container holds no elements.
    pub fn is_empty(&self) -> (r: bool)
        requires
            self.inv(),
        ensures
            r == (self.contents().len() == 0),
    {
        self.engine.length() == 0
    }

    /// Read-only access to the element at `index`.
    pub fn get(&self, index: usize) -> (r: &B::Item)
        requires
            self.inv(),
            index < self.contents().len(),
        ensures
            *r == self.contents()[index as int],
    {
        self.engine.get_at(index)
    }

    /// Overwrite the element at `index`, dropping the previous one.
    pub fn set(&mut self, index: usize, value: B::Item)
        requires
            old(self).inv(),
            index < old(self).contents().len(),
        ensures
            final(self).inv(),
            final(self).contents() == old(self).contents().update(index as int, value),
    {
        self.engine.set_at(index, value);
    }

    /// Try to push `item` onto the end of the container.  On capacity
    /// overflow the element is handed back unchanged and the container is
    /// left exactly as it was.
    pub fn try_push(&mut self, item: B::Item) -> (r: Result<(), B::Item>)
        requires
            old(self).inv(),
        ensures
            final(self).inv(),
            r is Ok <==> old(self).has_room(),
            r is Ok ==> final(self).contents() == old(self).contents().push(item),
            r is Err ==> {
                &&& r->Err_0 == item
                &&& final(self).contents() == old(self).contents()
                &&& !old(self).has_room()
            },
    {
        self.engine.try_push(item)
    }

    /// Push `item` onto the end of the container.  A push that would be
    /// rejected for capacity is a fatal condition, so it is excluded by
    /// precondition: callers of the bounded configuration must know the
    /// container has room.
    pub fn push(&mut self, item: B::Item)
        requires
            old(self).inv(),
            old(self).has_room(),
        ensures
            final(self).inv(),
            final(self).contents() == old(self).contents().push(item),
    {
        let result = self.engine.try_push(item);
        if let Err(_) = result {
            proof {
                assert(false);
            }
        }
    }

    /// Remove and return the last element, if any.
    pub fn pop(&mut self) -> (r: Option<B::Item>)
        requires
            old(self).inv(),
        ensures
            final(self).inv(),
            old(self).contents().len() == 0 ==> {
                &&& r is None
                &&& final(self).contents() == old(self).contents()
            },
            old(self).contents().len() > 0 ==> {
                &&& r == Some(old(self).contents().last())
                &&& final(self).contents() == old(self).contents().drop_last()
            },
    {
        self.engine.pop_last()
    }

    /// Try to insert `item` before position `index`.  On capacity overflow
    /// the element is handed back unchanged and the container is left
    /// exactly as it was.  Insertion beyond the end is caller error and is
    /// excluded by precondition.
    pub fn try_insert(&mut self, item: B::Item, index: usize) -> (r: Result<(), B::Item>)
        requires
            old(self).inv(),
            index <= old(self).contents().len(),
        ensures
            final(self).inv(),
            r is Ok <==> old(self).has_room(),
            r is Ok ==> final(self).contents() == old(self).contents().insert(index as int, item),
            r is Err ==> {
                &&& r->Err_0 == item
                &&& final(self).contents() == old(self).contents()
                &&& !old(self).has_room()
            },
    {
        self.engine.try_insert_at(index, item)
    }

    /// Insert `item` before position `index`.  As with `push`, capacity
    /// overflow is a fatal condition and is excluded by precondition.
    pub fn insert(&mut self, item: B::Item, index: usize)
        requires
            old(self).inv(),
            index <= old(self).contents().len(),
            old(self).has_room(),
        ensures
            final(self).inv(),
            final(self).contents() == old(self).contents().insert(index as int, item),
    {
        let result = self.engine.try_insert_at(index, item);
        if let Err(_) = result {
            proof {
                assert(false);
            }
        }
    }

    /// Remove and return the element at `index`, shifting the elements
    /// above it one position toward the start.  Every index below the
    /// length is valid, including the last; `index >= len` reports absence
    /// and leaves the container unchanged.
    pub fn remove(&mut self, index: usize) -> (r: Option<B::Item>)
        requires
            old(self).inv(),
        ensures
            final(self).inv(),
            index < old(self).contents().len() ==> {
                &&& r == Some(old(self).contents()[index as int])
                &&& final(self).contents() == old(self).contents().remove(index as int)
            },
            index >= old(self).contents().len() ==> {
                &&& r is None
                &&& final(self).contents() == old(self).contents()
            },
    {
        if index < self.engine.length() {
            Some(self.engine.remove_at(index))
        } else {
            None
        }
    }

    /// Remove the elements in positions `[start, end)`, closing the gap,
    /// and hand them back as an owning iterator that yields them in order.
    pub fn drain(&mut self, start: usize, end: usize) -> (it: StorageVecIterator<B::Item>)
        requires
            old(self).inv(),
            start <= end,
            end <= old(self).contents().len(),
        ensures
            final(self).inv(),
            it.contents() == old(self).contents().subrange(start as int, end as int),
            final(self).contents() == old(self).contents().subrange(0, start as int)
                + old(self).contents().subrange(end as int, old(self).contents().len() as int),
    {
        let ghost orig = self.contents();
        let mut out: Vec<B::Item> = Vec::new();
        let mut k: usize = 0;
        while k < end - start
            invariant
                self.inv(),
                start <= end <= orig.len(),
                k <= end - start,
                out@ == orig.subrange(start as int, start + k),
                self.contents() == orig.subrange(0, start as int)
                    + orig.subrange(start + k, orig.len() as int),
            decreases end - start - k,
        {
            proof {
                assert(self.contents()[start as int] == orig[start + k]);
                assert(self.contents().len() == orig.len() - k);
            }
            let value = self.engine.remove_at(start);
            out.push(value);
            k = k + 1;
            proof {
                assert(out@ =~= orig.subrange(start as int, start + k));
                assert(self.contents() =~= orig.subrange(0, start as int)
                    + orig.subrange(start + k, orig.len() as int));
            }
        }
        proof {
            assert(out@ == orig.subrange(start as int, end as int));
        }
        StorageVecIterator { items: out }
    }

    /// Push every element of `items`, in order.  The whole batch must fit
    /// within the engine's capacity bound, if it has one.
    pub fn extend_from_vec(&mut self, items: Vec<B::Item>)
        requires
            old(self).inv(),
            (match B::capacity() {
                Some(c) => old(self).contents().len() + items@.len() <= c,
                None => true,
            }),
        ensures
            final(self).inv(),
            final(self).contents() == old(self).contents() + items@,
    {
        let ghost orig = self.contents();
        let ghost all = items@;
        let mut items = items;
        while items.len() > 0
            invariant
                self.inv(),
                self.contents() + items@ == orig + all,
                (match B::capacity() {
                    Some(c) => orig.len() + all.len() <= c,
                    None => true,
                }),
            decreases items@.len(),
        {
            proof {
                assert((self.contents() + items@).len() == (orig + all).len());
                assert(self.contents().len() + items@.len() == orig.len() + all.len());
            }
            let value = items.remove(0);
            let result = self.engine.try_push(value);
            if let Err(_) = result {
                proof {
                    assert(false);
                }
            }
            proof {
                assert(self.contents() + items@ =~= orig + all);
            }
        }
        proof {
            assert(self.contents() =~= orig + all);
        }
    }

    /// Build a container from a plain sequence of values.  The values must
    /// fit within the engine's capacity bound, if it has one.
    pub fn from_vec(items: Vec<B::Item>) -> (r: Self)
        requires
            (match B::capacity() {
                Some(c) => items@.len() <= c,
                None => true,
            }),
        ensures
            r.inv(),
            r.contents() == items@,
    {
        let mut container = Self::new();
        container.extend_from_vec(items);
        proof {
            assert(Seq::<B::Item>::empty() + items@ =~= items@);
        }
        container
    }

    /// Consume the container, transferring ownership of every element to an
    /// owning iterator that yields them in order.
    pub fn into_iter(self) -> (it: StorageVecIterator<B::Item>)
        requires
            self.inv(),
        ensures
            it.contents() == self.contents(),
    {
        StorageVecIterator { items: self.engine.into_elements() }
    }
}

impl<B: DuplicableBackend> StorageVec<B> {
    /// Produce an independent container with the same length and the same
    /// element sequence; mutating either afterwards cannot affect the other.
    pub fn duplicate(&self) -> (r: Self)
        requires
            self.inv(),
        ensures
            r.inv(),
            r.contents() == self.contents(),
    {
        StorageVec { engine: self.engine.duplicate() }
    }
}

impl<T, const N: usize> StorageVec<HybridEngine<T, N>> {
    /// Whether the hybrid engine has made its one-way move to the heap.
    pub closed spec fn is_spilled(&self) -> bool {
        self.engine.is_spilled()
    }

    /// Report which mode the hybrid engine is in: `false` while the
    /// elements are inline, `true` once they have spilled to the heap.
    pub fn has_spilled(&self) -> (r: bool)
        ensures
            r == self.is_spilled(),
    {
        self.engine.has_spilled()
    }
}

impl<B: StorageBackend> core::default::Default for StorageVec<B> {
    /// An empty container, exactly as `new` builds it.
    fn default() -> (r: Self)
        ensures
            r.inv(),
            r.contents() == Seq::<B::Item>::empty(),
    {
        Self::new()
    }
}

/// An owning iterator over a consumed container.  Each previously stored
/// element is yielded exactly once — from the front by `next`, from the
/// back by `next_back` — and the exact remaining count is reported at all
/// times; once the two ends meet, the iterator holds no live elements.
#[derive(Clone, Debug)]
pub struct StorageVecIterator<T> {
    items: Vec<T>,
}

impl<T> StorageVecIterator<T> {
    /// The elements not yet yielded, in order.
    pub closed spec fn contents(&self) -> Seq<T> {
        self.items@
    }

    /// Yield the foremost remaining element, or report exhaustion.
    pub fn next(&mut self) -> (r: Option<T>)
        ensures
            old(self).contents().len() == 0 ==> {
                &&& r is None
                &&& final(self).contents() == old(self).contents()
            },
            old(self).contents().len() > 0 ==> {
                &&& r == Some(old(self).contents().first())
                &&& final(self).contents() == old(self).contents().drop_first()
            },
    {
        if self.items.len() == 0 {
            None
        } else {
            let value = self.items.remove(0);
            proof {
                assert(self.items@ =~= old(self).contents().drop_first());
            }
            Some(value)
        }
    }

    /// Yield the rearmost remaining element, or report exhaustion.
    pub fn next_back(&mut self) -> (r: Option<T>)
        ensures
            old(self).contents().len() == 0 ==> {
                &&& r is None
                &&& final(self).contents() == old(self).contents()
            },
            old(self).contents().len() > 0 ==> {
                &&& r == Some(old(self).contents().last())
                &&& final(self).contents() == old(self).contents().drop_last()
            },
    {
        let value = self.items.pop();
        proof {
            if old(self).contents().len() > 0 {
                assert(old(self).contents().subrange(0, old(self).contents().len() - 1)
                    =~= old(self).contents().drop_last());
            }
        }
        value
    }

    /// The exact number of elements still to be yielded, as a lower and an
    /// upper bound.
    pub fn size_hint(&self) -> (r: (usize, Option<usize>))
        ensures
            r.0 == self.contents().len(),
            r.1 matches Some(upper) && upper == self.contents().len(),
    {
        let n = self.items.len();
        (n, Some(n))
    }

    /// The exact number of elements still to be yielded.
    pub fn remaining(&self) -> (n: usize)
        ensures
            n == self.contents().len(),
    {
        self.items.len()
    }

    /// Drive the iterator to exhaustion from the front, collecting every
    /// yielded element: the collection reconstructs the remaining sequence
    /// exactly, and no element is yielded twice.
    pub fn collect_all(self) -> (r: Vec<T>)
        ensures
            r@ == self.contents(),
    {
        let ghost orig = self.contents();
        let mut it = self;
        let mut out: Vec<T> = Vec::new();
        while it.remaining() > 0
            invariant
                out@ + it.contents() == orig,
            decreases it.contents().len(),
        {
            let value = it.next().unwrap();
            out.push(value);
            proof {
                assert(out@ + it.contents() =~= orig);
            }
        }
        proof {
            assert(out@ =~= orig);
        }
        out
    }
}

} // verus!
