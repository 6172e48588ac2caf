//! The witness arena: a security-hardened handle over a bump engine.
//!
//! Witness data is private input to a proof. Every allocation is handed out
//! zeroed, and a reset goes through a wipe of the whole region, so no residue
//! of one proof's witness survives into the next.

use vstd::prelude::*;

verus! {

use crate::SECURE_WIPE_PATTERN;
use crate::alignment::is_power_of_two;
use crate::bump::{BumpAlloc, BumpModel, alloc_post, alloc_result, filled_range};

/// The engine state after a witness allocation: the cursor advances past the
/// interval and the interval's bytes read as zero.
pub open spec fn witness_alloc_post(m: BumpModel, size: int, align: int) -> BumpModel {
    let after = alloc_post(m, size, align);
    match alloc_result(m, size, align) {
        Some(p) => BumpModel {
            base: after.base,
            cursor: after.cursor,
            recycled: after.recycled,
            mem: filled_range(after.mem, p - after.base, size, 0u8),
        },
        None => after,
    }
}

/// A handle over a bump engine that zeroes what it hands out and wipes the
/// whole region on reset.
pub struct WitnessArena {
    inner: BumpAlloc,
}

impl View for WitnessArena {
    type V = BumpModel;

    closed spec fn view(&self) -> BumpModel {
        self.inner@
    }
}

impl WitnessArena {
    /// Wrap a bump engine in the witness discipline.
    pub fn new(inner: BumpAlloc) -> (r: WitnessArena)
        ensures
            r@ == inner@,
    {
        WitnessArena { inner }
    }

    /// Allocate witness memory; every byte of the returned interval reads as
    /// zero, whichever generation the engine is on.
    pub fn allocate(&mut self, size: usize, align: usize) -> (r: Option<usize>)
        requires
            old(self)@.wf(),
            0 < size,
            0 < align,
            is_power_of_two(align as int),
        ensures
            final(self)@.wf(),
            final(self)@ == witness_alloc_post(old(self)@, size as int, align as int),
            final(self)@.base == old(self)@.base,
            final(self)@.mem.len() == old(self)@.mem.len(),
            final(self)@.recycled == old(self)@.recycled,
            old(self)@.cursor <= final(self)@.cursor,
            match r {
                Some(p) => {
                    &&& alloc_result(old(self)@, size as int, align as int) == Some(p as int)
                    &&& (p as int) % (align as int) == 0
                    &&& old(self)@.cursor <= p as int
                    &&& old(self)@.contains(p as int, size as int)
                    &&& final(self)@.cursor == p + size
                    &&& forall|j: int|
                        0 <= j < size ==> #[trigger] final(self)@.byte_at(p + j) == 0u8
                },
                None => {
                    &&& alloc_result(old(self)@, size as int, align as int) is None
                    &&& final(self)@ == old(self)@
                },
            },
    {
        let r = self.inner.allocate(size, align);
        match r {
            Some(p) => {
                self.inner.fill_range(p, size, 0u8);
                Some(p)
            },
            None => None,
        }
    }

    /// Wipe the entire region with the wipe pattern and reset the engine.
    pub fn secure_wipe(&mut self)
        requires
            old(self)@.wf(),
        ensures
            final(self)@.wf(),
            final(self)@.base == old(self)@.base,
            final(self)@.cursor == final(self)@.base,
            final(self)@.recycled == true,
            final(self)@.mem == Seq::new(
                old(self)@.mem.len(),
                |j: int| SECURE_WIPE_PATTERN,
            ),
    {
        self.inner.secure_reset();
    }

    /// Bytes still free past the cursor.
    pub fn remaining(&self) -> (r: usize)
        requires
            self@.wf(),
        ensures
            r as int == self@.remaining(),
    {
        self.inner.remaining()
    }

    /// The base address of the region.
    pub fn base_ptr(&self) -> (r: usize)
        ensures
            r as int == self@.base,
    {
        self.inner.base_ptr()
    }

    /// Total capacity of the region in bytes.
    pub fn capacity(&self) -> (r: usize)
        ensures
            r as int == self@.capacity(),
    {
        self.inner.capacity()
    }

    /// Bytes allocated since the last reset.
    pub fn used(&self) -> (r: usize)
        requires
            self@.wf(),
        ensures
            r as int == self@.used(),
    {
        self.inner.used()
    }

    /// Read the byte at absolute address `addr`.
    pub fn read_byte(&self, addr: usize) -> (r: u8)
        requires
            self@.wf(),
            self@.contains(addr as int, 1),
        ensures
            r == self@.byte_at(addr as int),
    {
        self.inner.read_byte(addr)
    }

    /// Write one byte at absolute address `addr`.
    pub fn write_byte(&mut self, addr: usize, value: u8)
        requires
            old(self)@.wf(),
            old(self)@.contains(addr as int, 1),
        ensures
            final(self)@.wf(),
            final(self)@.base == old(self)@.base,
            final(self)@.cursor == old(self)@.cursor,
            final(self)@.recycled == old(self)@.recycled,
            final(self)@.mem == old(self)@.mem.update(addr - old(self)@.base, value),
    {
        self.inner.write_byte(addr, value);
    }
}

} // verus!
