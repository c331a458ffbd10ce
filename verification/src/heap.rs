//! The heap engine: a thin pass-through to a growable heap buffer with no
//! capacity limit modeled, so pushes and inserts always succeed.

use vstd::prelude::*;

use crate::backend::{DuplicableBackend, StorageBackend};

verus! {

/// A storage engine backed by a growable heap buffer.  It has no capacity
/// bound, so `try_push` and `try_insert_at` never reject; running the
/// allocator out of memory is treated as an unrecoverable environment
/// failure outside this model.
#[derive(Clone, Debug)]
pub struct HeapEngine<T> {
    data: Vec<T>,
}

impl<T> StorageBackend for HeapEngine<T> {
    type Item = T;

    closed spec fn contents(&self) -> Seq<T> {
        self.data@
    }

    closed spec fn inv(&self) -> bool {
        true
    }

    open spec fn capacity() -> Option<int> {
        None
    }

    fn empty() -> (r: Self) {
        HeapEngine { data: Vec::new() }
    }

    fn length(&self) -> (n: usize) {
        self.data.len()
    }

    fn get_at(&self, i: usize) -> (r: &T) {
        &self.data[i]
    }

    fn set_at(&mut self, i: usize, value: T) {
        self.data[i] = value;
    }

    fn try_push(&mut self, item: T) -> (r: Result<(), T>) {
        self.data.push(item);
        Ok(())
    }

    fn try_insert_at(&mut self, i: usize, item: T) -> (r: Result<(), T>) {
        self.data.insert(i, item);
        Ok(())
    }

    fn pop_last(&mut self) -> (r: Option<T>) {
        let value = self.data.pop();
        proof {
            if old(self).contents().len() > 0 {
                assert(old(self).contents().subrange(0, old(self).contents().len() - 1)
                    =~= old(self).contents().drop_last());
            }
        }
        value
    }

    fn remove_at(&mut self, i: usize) -> (r: T) {
        self.data.remove(i)
    }

    fn into_elements(self) -> (r: Vec<T>) {
        self.data
    }
}

impl<T: Copy> DuplicableBackend for HeapEngine<T> {
    fn duplicate(&self) -> (r: Self) {
        let n = self.data.len();
        let mut data: Vec<T> = Vec::new();
        let mut i: usize = 0;
        while i < n
            invariant
                n == self.contents().len(),
                i <= n,
                data@ == self.contents().take(i as int),
            decreases n - i,
        {
            let value: T = self.data[i];
            data.push(value);
            i = i + 1;
            proof {
                assert(data@ =~= self.contents().take(i as int));
            }
        }
        proof {
            assert(data@ =~= self.contents());
        }
        HeapEngine { data }
    }
}

} // verus!
