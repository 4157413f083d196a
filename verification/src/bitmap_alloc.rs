//! A bitmap allocator over a fixed arena.
//!
//! The arena is split into blocks of [`MIN_MEMORY_BLOCK`] bytes; a bitmap
//! records which blocks are used. Allocation scans for a free run of blocks,
//! first from a rotating cursor to the end, then from the start up to the
//! cursor, and marks the run used. Addresses are offsets into the arena.

use vstd::prelude::*;

verus! {

/// The smallest allocation unit, in bytes.
pub const MIN_MEMORY_BLOCK: usize = 256;

/// The arena size, in bytes.
pub const MEMORY_SIZE: usize = 65536;

/// The number of blocks in the arena.
pub const MAX_BLOCKS: usize = 256;

/// How many blocks a request of `n` bytes occupies.
pub open spec fn spec_roundup_blocks(n: nat) -> nat {
    (n - 1) as nat / 256 + 1
}

/// How many blocks a request of `n` bytes occupies: the block count of `n`
/// rounded up.
pub fn roundup_blocks(n: usize) -> (r: usize)
    requires
        n >= 1,
    ensures
        r == spec_roundup_blocks(n as nat),
        r == (n + MIN_MEMORY_BLOCK - 1) / (MIN_MEMORY_BLOCK as int),
        r >= 1,
{
    let m: usize = n - 1;
    proof {
        assert((m >> 8u64) == m / 256) by (bit_vector);
    }
    (m >> 8) + 1
}

/// A fixed-size arena with a block-usage bitmap and a rotating search cursor.
pub struct BitmapAlloc {
    /// One flag per block: set when the block is used.
    pub bitmap: Vec<bool>,
    /// The arena bytes.
    pub memory: Vec<u8>,
    /// Where the next search starts.
    pub cursor: usize,
}

impl BitmapAlloc {
    /// The allocator's bookkeeping is intact.
    pub open spec fn wf(self) -> bool {
        &&& self.bitmap@.len() == MAX_BLOCKS
        &&& self.memory@.len() == MEMORY_SIZE
        &&& self.cursor < MAX_BLOCKS
    }

    /// Which blocks are used.
    pub open spec fn used(self) -> Seq<bool> {
        self.bitmap@
    }

    /// The arena contents.
    pub open spec fn mem(self) -> Seq<u8> {
        self.memory@
    }

    /// Every block in `[start, start + n)` is free.
    pub open spec fn range_free(self, start: int, n: int) -> bool {
        forall|k: int| start <= k < start + n ==> !(#[trigger] self.used()[k])
    }

    /// A fresh allocator: an all-zero arena with every block free.
    pub fn default() -> (r: Self)
        ensures
            r.wf(),
            r.cursor == 0,
            forall|k: int| 0 <= k < MAX_BLOCKS ==> !(#[trigger] r.used()[k]),
    {
        let mut bitmap: Vec<bool> = Vec::new();
        let mut i: usize = 0;
        while i < MAX_BLOCKS
            invariant
                i <= MAX_BLOCKS,
                bitmap@.len() == i,
                forall|k: int| 0 <= k < i ==> !(#[trigger] bitmap@[k]),
            decreases MAX_BLOCKS - i,
        {
            bitmap.push(false);
            i = i + 1;
        }
        let mut memory: Vec<u8> = Vec::new();
        let mut j: usize = 0;
        while j < MEMORY_SIZE
            invariant
                j <= MEMORY_SIZE,
                memory@.len() == j,
            decreases MEMORY_SIZE - j,
        {
            memory.push(0);
            j = j + 1;
        }
        BitmapAlloc { bitmap, memory, cursor: 0 }
    }

    /// Whether block `i` is used.
    fn bit_isset(&self, i: usize) -> (r: bool)
        requires
            self.wf(),
            i < MAX_BLOCKS,
        ensures
            r == self.used()[i as int],
    {
        self.bitmap[i]
    }

    /// Mark block `i` used.
    fn bit_set(&mut self, i: usize)
        requires
            old(self).wf(),
            i < MAX_BLOCKS,
        ensures
            final(self).wf(),
            final(self).used() == old(self).used().update(i as int, true),
            final(self).mem() == old(self).mem(),
            final(self).cursor == old(self).cursor,
    {
        let b = &mut self.bitmap[i];
        *b = true;
    }

    /// Mark block `i` free.
    fn bit_clear(&mut self, i: usize)
        requires
            old(self).wf(),
            i < MAX_BLOCKS,
        ensures
            final(self).wf(),
            final(self).used() == old(self).used().update(i as int, false),
            final(self).mem() == old(self).mem(),
            final(self).cursor == old(self).cursor,
    {
        let b = &mut self.bitmap[i];
        *b = false;
    }

    /// Whether the offset lies inside the arena.
    pub fn contains_ptr(&self, p: usize) -> (r: bool)
        ensures
            r == (p < MEMORY_SIZE),
    {
        p < MEMORY_SIZE
    }

    /// Every block of the run `[i, i + nblocks)` is free.
    fn is_run_free(&self, i: usize, nblocks: usize) -> (r: bool)
        requires
            self.wf(),
            i + nblocks <= MAX_BLOCKS,
        ensures
            r == self.range_free(i as int, nblocks as int),
    {
        let mut k: usize = 0;
        while k < nblocks
            invariant
                self.wf(),
                i + nblocks <= MAX_BLOCKS,
                k <= nblocks,
                forall|m: int| i <= m < i + k ==> !(#[trigger] self.used()[m]),
            decreases nblocks - k,
        {
            if self.bit_isset(i + k) {
                return false;
            }
            k = k + 1;
        }
        true
    }

    /// Find the first run of `nblocks` free blocks starting in
    /// `[start, end - nblocks]`.
    fn search_continues(&self, nblocks: usize, start: usize, end: usize) -> (r: Option<usize>)
        requires
            self.wf(),
            nblocks >= 1,
            start <= end,
            end <= MAX_BLOCKS,
        ensures
            match r {
                Some(i) => {
                    &&& start <= i
                    &&& i + nblocks <= end
                    &&& self.range_free(i as int, nblocks as int)
                    &&& forall|s: int|
                        start <= s < i ==> !self.range_free(s, nblocks as int)
                },
                None => forall|s: int|
                    start <= s && s + nblocks <= end ==> !self.range_free(s, nblocks as int),
            },
    {
        if end - start < nblocks {
            return None;
        }
        let mut i: usize = start;
        while i <= end - nblocks
            invariant
                self.wf(),
                nblocks >= 1,
                start <= i,
                end <= MAX_BLOCKS,
                nblocks <= end - start,
                i <= end - nblocks + 1,
                forall|s: int| start <= s < i ==> !self.range_free(s, nblocks as int),
            decreases end - i,
        {
            if self.is_run_free(i, nblocks) {
                return Some(i);
            }
            i = i + 1;
        }
        None
    }

    /// Allocate `nbytes` bytes. The scan runs from the cursor to the end of
    /// the arena, then from the start up to the cursor; the first free run
    /// found is marked used and its byte offset returned. A null answer means
    /// neither window held a free run.
    pub fn malloc(&mut self, nbytes: usize) -> (r: Option<usize>)
        requires
            old(self).wf(),
            nbytes >= 1,
        ensures
            final(self).wf(),
            final(self).mem() == old(self).mem(),
            ({
                let n = spec_roundup_blocks(nbytes as nat) as int;
                match r {
                    Some(off) => {
                        let b = off as int / (MIN_MEMORY_BLOCK as int);
                        &&& off % MIN_MEMORY_BLOCK == 0
                        &&& b + n <= MAX_BLOCKS
                        &&& old(self).range_free(b, n)
                        &&& (forall|k: int|
                            b <= k < b + n ==> (#[trigger] final(self).used()[k]))
                        &&& (forall|k: int|
                            0 <= k < MAX_BLOCKS && !(b <= k < b + n) ==> final(self).used()[k]
                                == old(self).used()[k])
                    },
                    None => {
                        &&& *final(self) == *old(self)
                        &&& (forall|s: int|
                            old(self).cursor <= s && s + n <= MAX_BLOCKS ==> !old(
                                self,
                            ).range_free(s, n))
                        &&& (forall|s: int|
                            0 <= s && s + n <= old(self).cursor ==> !old(self).range_free(s, n))
                    },
                }
            }),
    {
        let nblocks = roundup_blocks(nbytes);
        if nblocks > MAX_BLOCKS {
            proof {
                assert(forall|s: int|
                    old(self).cursor <= s && s + nblocks <= MAX_BLOCKS ==> !old(self).range_free(
                        s,
                        nblocks as int,
                    ));
            }
            return None;
        }
        let found = match self.search_continues(nblocks, self.cursor, MAX_BLOCKS) {
            Some(i) => Some(i),
            None => {
                if self.cursor != 0 {
                    self.search_continues(nblocks, 0, self.cursor)
                } else {
                    None
                }
            },
        };
        match found {
            Some(n) => {
                let mut i: usize = n;
                while i < n + nblocks
                    invariant
                        self.wf(),
                        n + nblocks <= MAX_BLOCKS,
                        n <= i <= n + nblocks,
                        self.mem() == old(self).mem(),
                        self.cursor == old(self).cursor,
                        forall|k: int| n <= k < i ==> (#[trigger] self.used()[k]),
                        forall|k: int|
                            0 <= k < MAX_BLOCKS && !(n <= k < i) ==> self.used()[k] == old(
                                self,
                            ).used()[k],
                    decreases n + nblocks - i,
                {
                    self.bit_set(i);
                    i = i + 1;
                }
                let new_cursor = nblocks + n;
                let ghost marked = *self;
                if new_cursor == MAX_BLOCKS {
                    self.cursor = 0;
                } else {
                    self.cursor = new_cursor;
                }
                proof {
                    // the cursor move leaves the bitmap and the arena alone
                    assert(self.used() == marked.used());
                    assert((n * MIN_MEMORY_BLOCK) as int % (MIN_MEMORY_BLOCK as int) == 0 && (n
                        * MIN_MEMORY_BLOCK) as int / (MIN_MEMORY_BLOCK as int) == n as int)
                        by (nonlinear_arith)
                        requires
                            0 <= n <= 256,
                            MIN_MEMORY_BLOCK == 256,
                    ;
                }
                Some(n * MIN_MEMORY_BLOCK)
            },
            None => None,
        }
    }

    /// Free the `nbytes`-byte allocation at byte offset `p`: its blocks are
    /// marked free again, and no other block changes.
    pub fn free(&mut self, p: usize, nbytes: usize)
        requires
            old(self).wf(),
            nbytes >= 1,
            p % MIN_MEMORY_BLOCK == 0,
            p / MIN_MEMORY_BLOCK + spec_roundup_blocks(nbytes as nat) <= MAX_BLOCKS,
        ensures
            final(self).wf(),
            final(self).mem() == old(self).mem(),
            final(self).cursor == old(self).cursor,
            ({
                let b = p as int / (MIN_MEMORY_BLOCK as int);
                let n = spec_roundup_blocks(nbytes as nat) as int;
                &&& (forall|k: int| b <= k < b + n ==> !(#[trigger] final(self).used()[k]))
                &&& (forall|k: int|
                    0 <= k < MAX_BLOCKS && !(b <= k < b + n) ==> final(self).used()[k] == old(
                        self,
                    ).used()[k])
            }),
    {
        let n = roundup_blocks(nbytes);
        let start = p / MIN_MEMORY_BLOCK;
        let mut i: usize = start;
        while i < start + n
            invariant
                self.wf(),
                start + n <= MAX_BLOCKS,
                start <= i <= start + n,
                self.mem() == old(self).mem(),
                self.cursor == old(self).cursor,
                forall|k: int| start <= k < i ==> !(#[trigger] self.used()[k]),
                forall|k: int|
                    0 <= k < MAX_BLOCKS && !(start <= k < i) ==> self.used()[k] == old(
                        self,
                    ).used()[k],
            decreases start + n - i,
        {
            self.bit_clear(i);
            i = i + 1;
        }
    }

    /// Write one byte of the arena.
    pub fn write_byte(&mut self, p: usize, value: u8)
        requires
            old(self).wf(),
            p < MEMORY_SIZE,
        ensures
            final(self).wf(),
            final(self).mem() == old(self).mem().update(p as int, value),
            final(self).used() == old(self).used(),
            final(self).cursor == old(self).cursor,
    {
        let b = &mut self.memory[p];
        *b = value;
    }

    /// Read one byte of the arena.
    pub fn read_byte(&self, p: usize) -> (r: u8)
        requires
            self.wf(),
            p < MEMORY_SIZE,
        ensures
            r == self.mem()[p as int],
    {
        self.memory[p]
    }
}

} // verus!
