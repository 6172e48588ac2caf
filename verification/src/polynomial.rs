//! The polynomial arena: a handle over a bump engine with the two alignment
//! presets that coefficient buffers want — cache-line for SIMD lanes and page
//! for huge vectors. Memory is not zeroed; polynomial code overwrites it
//! before reading.

use vstd::prelude::*;

verus! {

use crate::alignment::is_power_of_two;
use crate::bump::{BumpAlloc, BumpModel, alloc_post, alloc_result, filled_range, overwritten};

/// Cache-line size on common architectures; the SIMD-friendly preset.
pub const CACHE_LINE_ALIGN: usize = 64;

/// Page size used for huge-vector allocations.
pub const PAGE_ALIGN: usize = 4096;

/// A handle over a bump engine specialized for polynomial coefficient data.
pub struct PolynomialArena {
    inner: BumpAlloc,
}

impl View for PolynomialArena {
    type V = BumpModel;

    closed spec fn view(&self) -> BumpModel {
        self.inner@
    }
}

impl PolynomialArena {
    /// Wrap a bump engine in the polynomial presets.
    pub fn new(inner: BumpAlloc) -> (r: PolynomialArena)
        ensures
            r@ == inner@,
    {
        PolynomialArena { inner }
    }

    /// Allocate with cache-line alignment, for SIMD-driven FFT/NTT kernels.
    pub fn alloc_fft_friendly(&mut self, size: usize) -> (r: Option<usize>)
        requires
            old(self)@.wf(),
            0 < size,
        ensures
            final(self)@.wf(),
            final(self)@ == alloc_post(old(self)@, size as int, CACHE_LINE_ALIGN as int),
            match r {
                Some(p) => {
                    &&& alloc_result(old(self)@, size as int, CACHE_LINE_ALIGN as int)
                        == Some(p as int)
                    &&& (p as int) % (CACHE_LINE_ALIGN as int) == 0
                    &&& old(self)@.contains(p as int, size as int)
                },
                None => alloc_result(old(self)@, size as int, CACHE_LINE_ALIGN as int) is None,
            },
    {
        proof {
            assert(is_power_of_two(CACHE_LINE_ALIGN as int)) by {
                reveal_with_fuel(is_power_of_two, 8);
            }
        }
        self.inner.allocate(size, CACHE_LINE_ALIGN)
    }

    /// Allocate with page alignment, for vectors of several megabytes.
    pub fn alloc_huge(&mut self, size: usize) -> (r: Option<usize>)
        requires
            old(self)@.wf(),
            0 < size,
        ensures
            final(self)@.wf(),
            final(self)@ == alloc_post(old(self)@, size as int, PAGE_ALIGN as int),
            match r {
                Some(p) => {
                    &&& alloc_result(old(self)@, size as int, PAGE_ALIGN as int) == Some(p as int)
                    &&& (p as int) % (PAGE_ALIGN as int) == 0
                    &&& old(self)@.contains(p as int, size as int)
                },
                None => alloc_result(old(self)@, size as int, PAGE_ALIGN as int) is None,
            },
    {
        proof {
            assert(is_power_of_two(PAGE_ALIGN as int)) by {
                reveal_with_fuel(is_power_of_two, 14);
            }
        }
        self.inner.allocate(size, PAGE_ALIGN)
    }

    /// Allocate with a caller-supplied power-of-two alignment.
    pub fn allocate(&mut self, size: usize, align: usize) -> (r: Option<usize>)
        requires
            old(self)@.wf(),
            0 < size,
            0 < align,
            is_power_of_two(align as int),
        ensures
            final(self)@.wf(),
            final(self)@ == alloc_post(old(self)@, size as int, align as int),
            match r {
                Some(p) => {
                    &&& alloc_result(old(self)@, size as int, align as int) == Some(p as int)
                    &&& (p as int) % (align as int) == 0
                    &&& old(self)@.contains(p as int, size as int)
                    &&& final(self)@.cursor == p + size
                },
                None => {
                    &&& alloc_result(old(self)@, size as int, align as int) is None
                    &&& final(self)@ == old(self)@
                },
            },
    {
        self.inner.allocate(size, align)
    }

    /// Reset the arena; previously returned intervals become invalid.
    pub fn reset(&mut self)
        requires
            old(self)@.wf(),
        ensures
            final(self)@.wf(),
            final(self)@ == (BumpModel {
                base: old(self)@.base,
                cursor: old(self)@.base,
                recycled: true,
                mem: old(self)@.mem,
            }),
    {
        self.inner.reset();
    }

    /// Bytes still free past the cursor.
    pub fn remaining(&self) -> (r: usize)
        requires
            self@.wf(),
        ensures
            r as int == self@.remaining(),
    {
        self.inner.remaining()
    }

    /// The base address of the region.
    pub fn base_ptr(&self) -> (r: usize)
        ensures
            r as int == self@.base,
    {
        self.inner.base_ptr()
    }

    /// Total capacity of the region in bytes.
    pub fn capacity(&self) -> (r: usize)
        ensures
            r as int == self@.capacity(),
    {
        self.inner.capacity()
    }

    /// Bytes allocated since the last reset.
    pub fn used(&self) -> (r: usize)
        requires
            self@.wf(),
        ensures
            r as int == self@.used(),
    {
        self.inner.used()
    }

    /// Read the byte at absolute address `addr`.
    pub fn read_byte(&self, addr: usize) -> (r: u8)
        requires
            self@.wf(),
            self@.contains(addr as int, 1),
        ensures
            r == self@.byte_at(addr as int),
    {
        self.inner.read_byte(addr)
    }

    /// Write one byte at absolute address `addr`.
    pub fn write_byte(&mut self, addr: usize, value: u8)
        requires
            old(self)@.wf(),
            old(self)@.contains(addr as int, 1),
        ensures
            final(self)@.wf(),
            final(self)@.base == old(self)@.base,
            final(self)@.cursor == old(self)@.cursor,
            final(self)@.recycled == old(self)@.recycled,
            final(self)@.mem == old(self)@.mem.update(addr - old(self)@.base, value),
    {
        self.inner.write_byte(addr, value);
    }

    /// Write `value` over the `len` bytes starting at absolute address `addr`.
    /// The facade's zeroed-allocation path goes through this.
    pub fn fill_range(&mut self, addr: usize, len: usize, value: u8)
        requires
            old(self)@.wf(),
            old(self)@.contains(addr as int, len as int),
        ensures
            final(self)@.wf(),
            final(self)@.base == old(self)@.base,
            final(self)@.cursor == old(self)@.cursor,
            final(self)@.recycled == old(self)@.recycled,
            final(self)@.mem == filled_range(
                old(self)@.mem,
                addr - old(self)@.base,
                len as int,
                value,
            ),
    {
        self.inner.fill_range(addr, len, value);
    }

    /// Copy out the `len` bytes starting at absolute address `addr`.
    pub fn read_bytes(&self, addr: usize, len: usize) -> (r: Vec<u8>)
        requires
            self@.wf(),
            self@.contains(addr as int, len as int),
        ensures
            r@ == Seq::new(len as nat, |j: int| self@.byte_at(addr + j)),
    {
        self.inner.read_bytes(addr, len)
    }

    /// Write `data` over the bytes starting at absolute address `addr`.
    pub fn write_bytes(&mut self, addr: usize, data: &Vec<u8>)
        requires
            old(self)@.wf(),
            old(self)@.contains(addr as int, data@.len() as int),
        ensures
            final(self)@.wf(),
            final(self)@.base == old(self)@.base,
            final(self)@.cursor == old(self)@.cursor,
            final(self)@.recycled == old(self)@.recycled,
            final(self)@.mem == overwritten(old(self)@.mem, addr - old(self)@.base, data@),
    {
        self.inner.write_bytes(addr, data);
    }
}

} // verus!
