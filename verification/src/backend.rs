//! The capability set shared by the three storage engines.
//!
//! A backend is an interchangeable storage strategy: it stores a sequence of
//! elements, reports an optional capacity bound, and supports the push / pop
//! / insert / remove operations with one common contract.  The facade is
//! generic over this trait, so the engine is chosen once, at the type level,
//! and every call is monomorphized against it.

use vstd::prelude::*;

verus! {

/// One storage strategy for a sequence of elements.
///
/// The contract is uniform across engines.  Capacity rejection is a
/// first-class outcome, not a crash: `try_push` and `try_insert` hand the
/// rejected element back unchanged and leave the stored sequence exactly as
/// it was.  An engine whose `capacity` is `None` can always grow, so its
/// `try_*` operations never reject.
pub trait StorageBackend: Sized {
    /// The element type stored by this engine.
    type Item;

    /// The stored sequence of elements, in order.
    spec fn contents(&self) -> Seq<Self::Item>;

    /// The engine's internal invariant; every operation preserves it.
    spec fn inv(&self) -> bool;

    /// The number of elements beyond which insertions are rejected, or
    /// `None` for an engine that can always grow.
    spec fn capacity() -> Option<int>;

    /// Create an engine holding no elements.
    fn empty() -> (r: Self)
        ensures
            r.inv(),
            r.contents() == Seq::<Self::Item>::empty(),
    ;

    /// The number of stored elements.
    fn length(&self) -> (n: usize)
        requires
            self.inv(),
        ensures
            n == self.contents().len(),
    ;

    /// Read-only access to the element at `i`.
    fn get_at(&self, i: usize) -> (r: &Self::Item)
        requires
            self.inv(),
            i < self.contents().len(),
        ensures
            *r == self.contents()[i as int],
    ;

    /// Overwrite the element at `i`, dropping the previous one.
    fn set_at(&mut self, i: usize, value: Self::Item)
        requires
            old(self).inv(),
            i < old(self).contents().len(),
        ensures
            final(self).inv(),
            final(self).contents() == old(self).contents().update(i as int, value),
    ;

    /// Append `item`, or reject it unchanged if the engine is at capacity.
    fn try_push(&mut self, item: Self::Item) -> (r: Result<(), Self::Item>)
        requires
            old(self).inv(),
        ensures
            final(self).inv(),
            r is Ok ==> final(self).contents() == old(self).contents().push(item),
            r is Err ==> {
                &&& r->Err_0 == item
                &&& final(self).contents() == old(self).contents()
                &&& Self::capacity() is Some
                &&& old(self).contents().len() >= Self::capacity()->0
            },
            r is Ok <==> (Self::capacity() is None
                || old(self).contents().len() < Self::capacity()->0),
    ;

    /// Insert `item` before position `i`, or reject it unchanged if the
    /// engine is at capacity.
    fn try_insert_at(&mut self, i: usize, item: Self::Item) -> (r: Result<(), Self::Item>)
        requires
            old(self).inv(),
            i <= old(self).contents().len(),
        ensures
            final(self).inv(),
            r is Ok ==> final(self).contents() == old(self).contents().insert(i as int, item),
            r is Err ==> {
                &&& r->Err_0 == item
                &&& final(self).contents() == old(self).contents()
                &&& Self::capacity() is Some
                &&& old(self).contents().len() >= Self::capacity()->0
            },
            r is Ok <==> (Self::capacity() is None
                || old(self).contents().len() < Self::capacity()->0),
    ;

    /// Remove and return the last element, if any.
    fn pop_last(&mut self) -> (r: Option<Self::Item>)
        requires
            old(self).inv(),
        ensures
            final(self).inv(),
            old(self).contents().len() == 0 ==> {
                &&& r is None
                &&& final(self).contents() == old(self).contents()
            },
            old(self).contents().len() > 0 ==> {
                &&& r == Some(old(self).contents().last())
                &&& final(self).contents() == old(self).contents().drop_last()
            },
    ;

    /// Remove and return the element at `i`, shifting the elements above it
    /// one position toward the start.
    fn remove_at(&mut self, i: usize) -> (r: Self::Item)
        requires
            old(self).inv(),
            i < old(self).contents().len(),
        ensures
            final(self).inv(),
            r == old(self).contents()[i as int],
            final(self).contents() == old(self).contents().remove(i as int),
    ;

    /// Consume the engine, handing every stored element out in order.
    fn into_elements(self) -> (r: Vec<Self::Item>)
        requires
            self.inv(),
        ensures
            r@ == self.contents(),
    ;
}

/// A backend whose elements can be duplicated bit-for-bit, so that a whole
/// engine can be duplicated with a provably identical stored sequence.
pub trait DuplicableBackend: StorageBackend {
    /// Produce an independent engine holding the same sequence of elements.
    fn duplicate(&self) -> (r: Self)
        requires
            self.inv(),
        ensures
            r.inv(),
            r.contents() == self.contents(),
    ;
}

} // verus!
