//! The fixed-capacity engine: operations over a slot block of capacity `N`
//! that never allocate and reject, rather than crash, when `N` is exceeded.

use vstd::prelude::*;

use crate::backend::{DuplicableBackend, StorageBackend};
use crate::slots::SlotBlock;

verus! {

/// A storage engine holding at most `N` elements in a slot block, with no
/// heap growth.  Pushing or inserting into a full engine hands the element
/// back unchanged.
#[derive(Clone, Debug)]
pub struct FixedEngine<T, const N: usize> {
    block: SlotBlock<T, N>,
}

impl<T, const N: usize> StorageBackend for FixedEngine<T, N> {
    type Item = T;

    closed spec fn contents(&self) -> Seq<T> {
        self.block.contents()
    }

    closed spec fn inv(&self) -> bool {
        self.block.wf()
    }

    open spec fn capacity() -> Option<int> {
        Some(N as int)
    }

    fn empty() -> (r: Self) {
        FixedEngine { block: SlotBlock::new() }
    }

    fn length(&self) -> (n: usize) {
        self.block.len()
    }

    fn get_at(&self, i: usize) -> (r: &T) {
        self.block.get(i)
    }

    fn set_at(&mut self, i: usize, value: T) {
        proof {
            self.block.lemma_contents_bounded();
        }
        let _ = self.block.remove_value(i);
        self.block.insert_value(i, value);
        proof {
            assert(self.block.contents() =~= old(self).contents().update(i as int, value));
        }
    }

    fn try_push(&mut self, item: T) -> (r: Result<(), T>) {
        proof {
            self.block.lemma_contents_bounded();
        }
        let n = self.block.len();
        if n == N {
            Err(item)
        } else {
            self.block.insert_value(n, item);
            proof {
                assert(self.block.contents() =~= old(self).contents().push(item));
            }
            Ok(())
        }
    }

    fn try_insert_at(&mut self, i: usize, item: T) -> (r: Result<(), T>) {
        proof {
            self.block.lemma_contents_bounded();
        }
        if self.block.len() == N {
            Err(item)
        } else {
            self.block.insert_value(i, item);
            Ok(())
        }
    }

    fn pop_last(&mut self) -> (r: Option<T>) {
        let n = self.block.len();
        if n == 0 {
            None
        } else {
            let value = self.block.remove_value(n - 1);
            proof {
                assert(self.block.contents() =~= old(self).contents().drop_last());
            }
            Some(value)
        }
    }

    fn remove_at(&mut self, i: usize) -> (r: T) {
        self.block.remove_value(i)
    }

    fn into_elements(self) -> (r: Vec<T>) {
        let mut engine = self;
        let ghost orig = engine.contents();
        let mut out: Vec<T> = Vec::new();
        while engine.block.len() > 0
            invariant
                engine.inv(),
                out@ + engine.contents() == orig,
            decreases engine.contents().len(),
        {
            let value = engine.block.remove_value(0);
            out.push(value);
            proof {
                assert(out@ + engine.contents() =~= orig);
            }
        }
        proof {
            assert(out@ =~= orig);
        }
        out
    }
}

impl<T: Copy, const N: usize> DuplicableBackend for FixedEngine<T, N> {
    fn duplicate(&self) -> (r: Self) {
        let mut copy: FixedEngine<T, N> = FixedEngine { block: SlotBlock::new() };
        proof {
            self.block.lemma_contents_bounded();
        }
        let n = self.block.len();
        let mut i: usize = 0;
        while i < n
            invariant
                self.inv(),
                copy.inv(),
                n == self.contents().len(),
                i <= n,
                n <= N,
                copy.contents() == self.contents().take(i as int),
            decreases n - i,
        {
            let value: T = *self.block.get(i);
            copy.block.insert_value(i, value);
            i = i + 1;
            proof {
                assert(copy.contents() =~= self.contents().take(i as int));
            }
        }
        proof {
            assert(copy.contents() =~= self.contents());
        }
        copy
    }
}

} // verus!
