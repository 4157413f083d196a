//! Dynamic symbol loading: the checked part.
//!
//! A secondary code image is loaded into a page-aligned context window and
//! symbols are resolved by name against it. The foreign call that maps the
//! image is outside this library; what stands here is everything that can be
//! checked before and after it: the page-size preconditions of each load,
//! and the bookkeeping that chains several images into one window without
//! overlap.

use vstd::prelude::*;

use crate::error::SysError;

verus! {

/// The page-size shift: pages are 4096 bytes.
pub const RISCV_PGSIZE_SHIFT: u64 = 12;

/// The page size in bytes.
pub const RISCV_PGSIZE: usize = 4096;

/// Dynamic loading errors.
#[derive(Debug, Eq, PartialEq, Structural, Clone, Copy)]
pub enum Error {
    /// The window or the requested slice cannot host an image.
    ContextFailure,
    /// The requested size is not page aligned.
    InvalidAlign,
    /// A syscall failed underneath.
    Sys(SysError),
    /// The foreign loader answered with a nonzero code.
    OpenFailed(i64),
    /// Only a data hash may be used to load by data.
    InvalidHashTypeData,
}

/// A loaded image: the host-side handle and how many bytes of the window the
/// image occupies.
#[derive(Debug, Clone, Copy, PartialEq, Eq, Structural)]
pub struct Library {
    /// The opaque host-side token for symbol lookups.
    pub handle: u64,
    /// The bytes of the window the image consumed.
    pub consumed: usize,
}

impl Library {
    /// The bytes of the window the image consumed.
    pub fn consumed_size(&self) -> (r: usize)
        ensures
            r == self.consumed,
    {
        self.consumed
    }
}

/// The request is a loadable slice: at least one page, page aligned.
/// This is checked before any host call.
pub fn validate_load_size(size: usize) -> (r: Result<(), Error>)
    ensures
        size < RISCV_PGSIZE ==> r == Err::<(), Error>(Error::ContextFailure),
        size >= RISCV_PGSIZE && size % RISCV_PGSIZE != 0 ==> r == Err::<(), Error>(
            Error::InvalidAlign,
        ),
        size >= RISCV_PGSIZE && size % RISCV_PGSIZE == 0 ==> r == Ok::<(), Error>(()),
{
    if size < RISCV_PGSIZE {
        return Err(Error::ContextFailure);
    }
    if size % RISCV_PGSIZE != 0 {
        return Err(Error::InvalidAlign);
    }
    Ok(())
}

/// The bookkeeping of one context window across chained loads: the window
/// size, the bytes consumed so far, and the image ranges handed out.
pub struct ContextWindow {
    /// The window size in bytes.
    pub size: usize,
    /// The bytes consumed by the images loaded so far; the next image starts
    /// here.
    pub offset: usize,
    /// The `(start, length)` range of each image, in load order.
    pub images: Ghost<Seq<(int, int)>>,
}

impl ContextWindow {
    /// The images tile the consumed prefix of the window: each starts where
    /// the one before it ended, the first starts at zero, and together they
    /// fill exactly the consumed bytes.
    pub open spec fn wf(self) -> bool {
        &&& self.offset <= self.size
        &&& (self.images@.len() == 0 ==> self.offset == 0)
        &&& (self.images@.len() > 0 ==> self.images@[0].0 == 0 && self.images@.last().0
            + self.images@.last().1 == self.offset)
        &&& forall|k: int| 0 <= k < self.images@.len() ==> (#[trigger] self.images@[k]).1 >= 0
        &&& forall|k: int|
            0 <= k < self.images@.len() - 1 ==> (#[trigger] self.images@[k + 1]).0 == self.images@[
                k].0 + self.images@[k].1
    }

    /// A fresh window of `size` bytes.
    pub fn new(size: usize) -> (r: ContextWindow)
        ensures
            r.wf(),
            r.size == size,
            r.offset == 0,
            r.images@.len() == 0,
    {
        ContextWindow { size, offset: 0, images: Ghost(Seq::empty()) }
    }

    /// The remaining bytes of the window.
    pub fn remaining(&self) -> (r: usize)
        requires
            self.wf(),
        ensures
            r == self.size - self.offset,
    {
        self.size - self.offset
    }

    /// Check that a load of `load_size` bytes fits at the current offset,
    /// at least a page long and page aligned.
    pub fn validate_next_load(&self, load_size: usize) -> (r: Result<(), Error>)
        requires
            self.wf(),
        ensures
            r is Ok <==> (load_size >= RISCV_PGSIZE && load_size % RISCV_PGSIZE == 0 && self.offset
                + load_size <= self.size),
    {
        match validate_load_size(load_size) {
            Ok(()) => {},
            Err(e) => {
                return Err(e);
            },
        }
        if load_size > self.size - self.offset {
            return Err(Error::ContextFailure);
        }
        Ok(())
    }

    /// Record one loaded image: it starts at the current offset and consumed
    /// `consumed` bytes of the window, and the offset advances past it.
    pub fn record_load(&mut self, consumed: usize)
        requires
            old(self).wf(),
            old(self).offset + consumed <= old(self).size,
        ensures
            final(self).wf(),
            final(self).size == old(self).size,
            final(self).offset == old(self).offset + consumed,
            final(self).images@ == old(self).images@.push(
                (old(self).offset as int, consumed as int),
            ),
    {
        let ghost imgs = self.images@.push((self.offset as int, consumed as int));
        self.offset = self.offset + consumed;
        self.images = Ghost(imgs);
        proof {
            let pre = old(self).images@;
            assert forall|k: int|
                0 <= k < self.images@.len() - 1 implies (#[trigger] self.images@[k + 1]).0
                == self.images@[k].0 + self.images@[k].1 by {
                if k < pre.len() - 1 {
                    assert(pre[k + 1].0 == pre[k].0 + pre[k].1);
                } else {
                    assert(self.images@[k] == pre.last());
                    assert(pre.last().0 + pre.last().1 == old(self).offset);
                }
            }
        }
    }
}

/// The start of image `k2` lies at or past the end of any earlier image
/// `k1`: the images of one window never overlap.
pub proof fn lemma_images_ordered(w: ContextWindow, k1: int, k2: int)
    requires
        w.wf(),
        0 <= k1 < k2 < w.images@.len(),
    ensures
        w.images@[k1].0 + w.images@[k1].1 <= w.images@[k2].0,
    decreases k2 - k1,
{
    if k2 == k1 + 1 {
        assert(w.images@[k1 + 1].0 == w.images@[k1].0 + w.images@[k1].1);
    } else {
        lemma_images_ordered(w, k1, k2 - 1);
        assert(w.images@[(k2 - 1) + 1].0 == w.images@[k2 - 1].0 + w.images@[k2 - 1].1);
        assert(w.images@[k2 - 1].1 >= 0);
    }
}

/// Law: loading images one after the other into one window, each starting
/// where the previous consumption ended, never makes two image ranges
/// overlap.
pub proof fn lemma_chained_loads_disjoint(w: ContextWindow, k1: int, k2: int)
    requires
        w.wf(),
        0 <= k1 < w.images@.len(),
        0 <= k2 < w.images@.len(),
        k1 != k2,
    ensures
        w.images@[k1].0 + w.images@[k1].1 <= w.images@[k2].0 || w.images@[k2].0 + w.images@[k2].1
            <= w.images@[k1].0,
{
    if k1 < k2 {
        lemma_images_ordered(w, k1, k2);
    } else {
        lemma_images_ordered(w, k2, k1);
    }
}

} // verus!
