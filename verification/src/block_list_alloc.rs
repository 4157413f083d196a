//! A free-list allocator over a fixed arena of equal blocks.
//!
//! The arena is split into blocks of [`BLOCK_SIZE`] bytes and the free blocks
//! sit on a last-in-first-out list. Allocation pops the most recently freed
//! block; freeing pushes a block back. Addresses are offsets into the arena.

use vstd::prelude::*;

verus! {

/// The block size, in bytes.
pub const BLOCK_SIZE: usize = 64;

/// The allocator: a block count and the free list, most recent last.
pub struct BlockListAllocInner {
    /// How many blocks the arena holds.
    pub nblocks: usize,
    /// The indices of the free blocks; allocation takes from the end.
    pub free: Vec<usize>,
}

impl BlockListAllocInner {
    /// The free list holds valid block indices.
    pub open spec fn wf(self) -> bool {
        &&& self.nblocks * BLOCK_SIZE <= usize::MAX
        &&& forall|k: int| 0 <= k < self.free@.len() ==> (#[trigger] self.free@[k]) < self.nblocks
    }

    /// A fresh allocator over an arena of `len` bytes: every block free, the
    /// lowest block allocated last.
    pub fn new(len: usize) -> (r: Self)
        requires
            len % BLOCK_SIZE == 0,
        ensures
            r.wf(),
            r.nblocks == len / BLOCK_SIZE,
            r.free@.len() == r.nblocks,
            forall|k: int| 0 <= k < r.free@.len() ==> (#[trigger] r.free@[k]) == k,
    {
        let nblocks = len / BLOCK_SIZE;
        let mut free: Vec<usize> = Vec::new();
        let mut i: usize = 0;
        while i < nblocks
            invariant
                i <= nblocks,
                free@.len() == i,
                forall|k: int| 0 <= k < i ==> (#[trigger] free@[k]) == k,
            decreases nblocks - i,
        {
            free.push(i);
            i = i + 1;
        }
        proof {
            vstd::arithmetic::div_mod::lemma_fundamental_div_mod(len as int, BLOCK_SIZE as int);
        }
        BlockListAllocInner { nblocks, free }
    }

    /// Whether the offset lies inside the arena.
    pub fn contains_ptr(&self, p: usize) -> (r: bool)
        requires
            self.wf(),
        ensures
            r == (p < self.nblocks * BLOCK_SIZE),
    {
        proof {
            assert(self.nblocks * BLOCK_SIZE == BLOCK_SIZE * self.nblocks) by (nonlinear_arith);
        }
        p < self.nblocks * BLOCK_SIZE
    }

    /// Allocate one block of up to [`BLOCK_SIZE`] bytes: the most recently
    /// freed block is taken from the list and its byte offset returned. The
    /// answer is null exactly when the request is too wide or no block is
    /// free.
    pub fn malloc(&mut self, nbytes: usize) -> (r: Option<usize>)
        requires
            old(self).wf(),
        ensures
            final(self).wf(),
            final(self).nblocks == old(self).nblocks,
            match r {
                Some(off) => {
                    &&& nbytes <= BLOCK_SIZE
                    &&& old(self).free@.len() > 0
                    &&& off == old(self).free@.last() * BLOCK_SIZE
                    &&& final(self).free@ == old(self).free@.drop_last()
                },
                None => {
                    &&& (nbytes > BLOCK_SIZE || old(self).free@.len() == 0)
                    &&& *final(self) == *old(self)
                },
            },
    {
        if nbytes > BLOCK_SIZE {
            return None;
        }
        if self.free.len() == 0 {
            return None;
        }
        match self.free.pop() {
            Some(idx) => {
                proof {
                    assert(old(self).free@.last() < self.nblocks);
                    assert(idx * BLOCK_SIZE <= self.nblocks * BLOCK_SIZE) by (nonlinear_arith)
                        requires
                            idx < self.nblocks,
                            BLOCK_SIZE >= 1,
                    ;
                }
                Some(idx * BLOCK_SIZE)
            },
            None => {
                proof {
                    assert(false);
                }
                None
            },
        }
    }

    /// Free the block at byte offset `p`: its index goes back on the list and
    /// is handed out again first.
    pub fn free(&mut self, p: usize)
        requires
            old(self).wf(),
            p < old(self).nblocks * BLOCK_SIZE,
            p % BLOCK_SIZE == 0,
        ensures
            final(self).wf(),
            final(self).nblocks == old(self).nblocks,
            final(self).free@ == old(self).free@.push((p / BLOCK_SIZE) as usize),
    {
        let idx = p / BLOCK_SIZE;
        proof {
            assert(p / BLOCK_SIZE < self.nblocks) by (nonlinear_arith)
                requires
                    p < self.nblocks * BLOCK_SIZE,
                    BLOCK_SIZE >= 1,
            ;
        }
        self.free.push(idx);
    }
}

} // verus!
