//! The hybrid engine: behaves like the fixed-capacity engine up to `N`
//! elements, then migrates everything into heap storage exactly once and
//! behaves like the heap engine from that point on.  It never rejects.

use vstd::prelude::*;

use crate::backend::{DuplicableBackend, StorageBackend};
use crate::fixed::FixedEngine;

verus! {

/// A storage engine in exactly one of two mutually exclusive modes: inline,
/// where the elements live in a fixed block of `N` slots and the heap buffer
/// is empty, or spilled, where the elements live in the heap buffer and the
/// block is logically empty and never read again.  The inline-to-spilled
/// transition is one-way and happens exactly once, the instant a push or
/// insert finds the block full.
///
/// The transition moves every element, so nothing borrowed from the engine
/// may be held across a push or insert; Rust's borrowing enforces that rule
/// for callers.
#[derive(Clone, Debug)]
pub struct HybridEngine<T, const N: usize> {
    inline: FixedEngine<T, N>,
    heap: Vec<T>,
    spilled: bool,
}

impl<T, const N: usize> HybridEngine<T, N> {
    /// Whether the one-way migration to heap storage has happened.
    pub closed spec fn is_spilled(&self) -> bool {
        self.spilled
    }

    /// Report which mode the engine is in: `false` while the elements are
    /// inline, `true` once they have spilled to the heap.
    pub fn has_spilled(&self) -> (r: bool)
        ensures
            r == self.is_spilled(),
    {
        self.spilled
    }

    /// Migrate every element from the slot block into the heap buffer and
    /// switch the engine to spilled mode, keeping the stored sequence intact.
    fn spill(&mut self)
        requires
            old(self).inv(),
            !old(self).is_spilled(),
        ensures
            final(self).inv(),
            final(self).is_spilled(),
            final(self).contents() == old(self).contents(),
    {
        let ghost orig = self.inline.contents();
        while self.inline.length() > 0
            invariant
                self.inline.inv(),
                self.heap@ + self.inline.contents() == orig,
            decreases self.inline.contents().len(),
        {
            let value = self.inline.remove_at(0);
            self.heap.push(value);
            proof {
                assert(self.heap@ + self.inline.contents() =~= orig);
            }
        }
        self.spilled = true;
        proof {
            assert(self.heap@ =~= orig);
        }
    }
}

impl<T, const N: usize> StorageBackend for HybridEngine<T, N> {
    type Item = T;

    closed spec fn contents(&self) -> Seq<T> {
        if self.spilled {
            self.heap@
        } else {
            self.inline.contents()
        }
    }

    closed spec fn inv(&self) -> bool {
        &&& self.inline.inv()
        &&& (if self.spilled {
            self.inline.contents().len() == 0
        } else {
            self.heap@.len() == 0
        })
    }

    open spec fn capacity() -> Option<int> {
        None
    }

    fn empty() -> (r: Self)
        ensures
            !r.is_spilled(),
    {
        HybridEngine { inline: FixedEngine::empty(), heap: Vec::new(), spilled: false }
    }

    fn length(&self) -> (n: usize) {
        if self.spilled {
            self.heap.len()
        } else {
            self.inline.length()
        }
    }

    fn get_at(&self, i: usize) -> (r: &T) {
        if self.spilled {
            &self.heap[i]
        } else {
            self.inline.get_at(i)
        }
    }

    fn set_at(&mut self, i: usize, value: T)
        ensures
            final(self).is_spilled() == old(self).is_spilled(),
    {
        if self.spilled {
            self.heap[i] = value;
        } else {
            self.inline.set_at(i, value);
        }
    }

    fn try_push(&mut self, item: T) -> (r: Result<(), T>)
        ensures
            final(self).is_spilled() <==> (old(self).is_spilled()
                || old(self).contents().len() >= N),
    {
        if self.spilled {
            self.heap.push(item);
            Ok(())
        } else {
            match self.inline.try_push(item) {
                Ok(()) => Ok(()),
                Err(rejected) => {
                    self.spill();
                    self.heap.push(rejected);
                    Ok(())
                },
            }
        }
    }

    fn try_insert_at(&mut self, i: usize, item: T) -> (r: Result<(), T>)
        ensures
            final(self).is_spilled() <==> (old(self).is_spilled()
                || old(self).contents().len() >= N),
    {
        if self.spilled {
            self.heap.insert(i, item);
            Ok(())
        } else {
            match self.inline.try_insert_at(i, item) {
                Ok(()) => Ok(()),
                Err(rejected) => {
                    self.spill();
                    self.heap.insert(i, rejected);
                    Ok(())
                },
            }
        }
    }

    fn pop_last(&mut self) -> (r: Option<T>)
        ensures
            final(self).is_spilled() == old(self).is_spilled(),
    {
        if self.spilled {
            let value = self.heap.pop();
            proof {
                if old(self).contents().len() > 0 {
                    assert(old(self).contents().subrange(0, old(self).contents().len() - 1)
                        =~= old(self).contents().drop_last());
                }
            }
            value
        } else {
            self.inline.pop_last()
        }
    }

    fn remove_at(&mut self, i: usize) -> (r: T)
        ensures
            final(self).is_spilled() == old(self).is_spilled(),
    {
        if self.spilled {
            self.heap.remove(i)
        } else {
            self.inline.remove_at(i)
        }
    }

    fn into_elements(self) -> (r: Vec<T>) {
        let HybridEngine { inline, heap, spilled } = self;
        if spilled {
            heap
        } else {
            inline.into_elements()
        }
    }
}

impl<T: Copy, const N: usize> DuplicableBackend for HybridEngine<T, N> {
    fn duplicate(&self) -> (r: Self) {
        if self.spilled {
            let n = self.heap.len();
            let mut data: Vec<T> = Vec::new();
            let mut i: usize = 0;
            while i < n
                invariant
                    n == self.heap@.len(),
                    i <= n,
                    data@ == self.heap@.take(i as int),
                decreases n - i,
            {
                let value: T = self.heap[i];
                data.push(value);
                i = i + 1;
                proof {
                    assert(data@ =~= self.heap@.take(i as int));
                }
            }
            proof {
                assert(data@ =~= self.heap@);
            }
            HybridEngine { inline: FixedEngine::empty(), heap: data, spilled: true }
        } else {
            HybridEngine { inline: self.inline.duplicate(), heap: Vec::new(), spilled: false }
        }
    }
}

} // verus!
