//! The bump engine: a monotonic allocation cursor over a fixed byte region.
//!
//! The engine owns the bytes of its region and addresses them through an
//! integer base, so every allocation is an interval `[p, p + size)` of
//! absolute addresses inside `[base, base + capacity)`.

use vstd::prelude::*;

verus! {

use crate::SECURE_WIPE_PATTERN;
use crate::alignment::{align_up, is_power_of_two, lemma_align_up, lemma_align_up_pad};

/// The mathematical state of a bump engine: the region `[base, base + mem.len())`
/// with its byte contents, the cursor, and the recycled flag.
pub struct BumpModel {
    pub base: int,
    pub cursor: int,
    pub recycled: bool,
    pub mem: Seq<u8>,
}

impl BumpModel {
    pub open spec fn capacity(self) -> int {
        self.mem.len() as int
    }

    /// One past the last address of the region.
    pub open spec fn limit(self) -> int {
        self.base + self.capacity()
    }

    pub open spec fn used(self) -> int {
        self.cursor - self.base
    }

    pub open spec fn remaining(self) -> int {
        self.limit() - self.cursor
    }

    pub open spec fn wf(self) -> bool {
        &&& 0 < self.base
        &&& 0 < self.capacity()
        &&& self.limit() <= usize::MAX
        &&& self.base <= self.cursor <= self.limit()
    }

    /// The interval `[addr, addr + size)` lies inside the region.
    pub open spec fn contains(self, addr: int, size: int) -> bool {
        self.base <= addr && addr + size <= self.limit()
    }

    /// The byte the region holds at absolute address `addr`.
    pub open spec fn byte_at(self, addr: int) -> u8 {
        self.mem[addr - self.base]
    }
}

/// Whether a request fits in the space past the cursor, alignment padding included.
pub open spec fn alloc_fits(m: BumpModel, size: int, align: int) -> bool {
    align_up(m.cursor, align) + size <= m.limit()
}

/// The address a successful allocation returns, or `None` on exhaustion.
pub open spec fn alloc_result(m: BumpModel, size: int, align: int) -> Option<int> {
    if alloc_fits(m, size, align) {
        Some(align_up(m.cursor, align))
    } else {
        None
    }
}

/// The engine state after an allocation attempt: the cursor advances past the
/// returned interval on success and nothing changes on exhaustion.
pub open spec fn alloc_post(m: BumpModel, size: int, align: int) -> BumpModel {
    if alloc_fits(m, size, align) {
        BumpModel {
            base: m.base,
            cursor: align_up(m.cursor, align) + size,
            recycled: m.recycled,
            mem: m.mem,
        }
    } else {
        m
    }
}

/// `mem` with the bytes at offsets `[off, off + len)` replaced by `value`.
pub open spec fn filled_range(mem: Seq<u8>, off: int, len: int, value: u8) -> Seq<u8> {
    Seq::new(mem.len(), |j: int| if off <= j < off + len { value } else { mem[j] })
}

/// `mem` with the bytes at offsets `[off, off + data.len())` replaced by `data`.
pub open spec fn overwritten(mem: Seq<u8>, off: int, data: Seq<u8>) -> Seq<u8> {
    Seq::new(mem.len(), |j: int| if off <= j < off + data.len() { data[j - off] } else { mem[j] })
}

/// A fast bump allocator over one contiguous region.
///
/// The cursor only ever moves forward between resets; a reset returns it to
/// the base and marks the engine recycled, forever.
pub struct BumpAlloc {
    base: usize,
    mem: Vec<u8>,
    cursor: usize,
    recycled: bool,
}

impl View for BumpAlloc {
    type V = BumpModel;

    closed spec fn view(&self) -> BumpModel {
        BumpModel {
            base: self.base as int,
            cursor: self.cursor as int,
            recycled: self.recycled,
            mem: self.mem@,
        }
    }
}

impl BumpAlloc {
    /// Install an engine over the region of bytes `mem`, addressed from `base`.
    ///
    /// The cursor starts at the base and the recycled flag starts false.
    pub fn new(base: usize, mem: Vec<u8>) -> (r: BumpAlloc)
        requires
            0 < base,
            0 < mem@.len(),
            base + mem@.len() <= usize::MAX,
        ensures
            r@ == (BumpModel {
                base: base as int,
                cursor: base as int,
                recycled: false,
                mem: mem@,
            }),
            r@.wf(),
    {
        BumpAlloc { base, mem, cursor: base, recycled: false }
    }

    /// The base address of the region.
    pub fn base_ptr(&self) -> (r: usize)
        ensures
            r as int == self@.base,
    {
        self.base
    }

    /// Total capacity of the region in bytes.
    pub fn capacity(&self) -> (r: usize)
        ensures
            r as int == self@.capacity(),
    {
        self.mem.len()
    }

    /// Bytes allocated since the last reset.
    pub fn used(&self) -> (r: usize)
        requires
            self@.wf(),
        ensures
            r as int == self@.used(),
    {
        self.cursor - self.base
    }

    /// Bytes still free past the cursor.
    pub fn remaining(&self) -> (r: usize)
        requires
            self@.wf(),
        ensures
            r as int == self@.remaining(),
    {
        self.mem.len() - (self.cursor - self.base)
    }

    /// Whether the engine has ever been reset.
    pub fn is_recycled(&self) -> (r: bool)
        ensures
            r == self@.recycled,
    {
        self.recycled
    }

    /// Carve the next `size` bytes at an address divisible by `align`.
    ///
    /// Returns `None` exactly when the request does not fit in the remaining
    /// space after alignment padding; the engine is then left unchanged.
    pub fn allocate(&mut self, size: usize, align: usize) -> (r: Option<usize>)
        requires
            old(self)@.wf(),
            0 < size,
            0 < align,
            is_power_of_two(align as int),
        ensures
            final(self)@.wf(),
            final(self)@ == alloc_post(old(self)@, size as int, align as int),
            final(self)@.base == old(self)@.base,
            final(self)@.mem == old(self)@.mem,
            final(self)@.recycled == old(self)@.recycled,
            old(self)@.cursor <= final(self)@.cursor,
            match r {
                Some(p) => {
                    &&& alloc_result(old(self)@, size as int, align as int) == Some(p as int)
                    &&& (p as int) % (align as int) == 0
                    &&& old(self)@.cursor <= p as int
                    &&& old(self)@.contains(p as int, size as int)
                    &&& final(self)@.cursor == p + size
                },
                None => {
                    &&& alloc_result(old(self)@, size as int, align as int) is None
                    &&& final(self)@ == old(self)@
                },
            },
    {
        proof {
            lemma_align_up(old(self)@.cursor, align as int);
            lemma_align_up_pad(old(self)@.cursor, align as int);
        }
        let limit: usize = self.base + self.mem.len();
        let rem: usize = self.cursor % align;
        let pad: usize = if rem == 0 { 0 } else { align - rem };
        if pad > limit - self.cursor {
            // Even the padding alone overruns the region.
            return None;
        }
        let aligned: usize = self.cursor + pad;
        if size > limit - aligned {
            return None;
        }
        self.cursor = aligned + size;
        Some(aligned)
    }

    /// Return the cursor to the base and mark the engine recycled.
    ///
    /// All previously returned intervals are semantically invalid afterwards;
    /// the bytes of the region are left as they are.
    pub fn reset(&mut self)
        requires
            old(self)@.wf(),
        ensures
            final(self)@.wf(),
            final(self)@ == (BumpModel {
                base: old(self)@.base,
                cursor: old(self)@.base,
                recycled: true,
                mem: old(self)@.mem,
            }),
    {
        self.cursor = self.base;
        self.recycled = true;
    }

    /// Overwrite the entire region — not merely the used prefix — with the
    /// wipe pattern, then reset.
    pub fn secure_reset(&mut self)
        requires
            old(self)@.wf(),
        ensures
            final(self)@.wf(),
            final(self)@.base == old(self)@.base,
            final(self)@.cursor == final(self)@.base,
            final(self)@.recycled == true,
            final(self)@.mem == Seq::new(old(self)@.mem.len(), |j: int| SECURE_WIPE_PATTERN),
    {
        let len: usize = self.mem.len();
        let mut i: usize = 0;
        while i < len
            invariant
                i <= len,
                len == self@.mem.len(),
                self@.base == old(self)@.base,
                self@.cursor == old(self)@.cursor,
                self@.recycled == old(self)@.recycled,
                old(self)@.wf(),
                forall|j: int| 0 <= j < i ==> self@.mem[j] == SECURE_WIPE_PATTERN,
            decreases len - i,
        {
            self.mem[i] = SECURE_WIPE_PATTERN;
            i += 1;
        }
        proof {
            assert(self@.mem =~= Seq::new(old(self)@.mem.len(), |j: int| SECURE_WIPE_PATTERN));
        }
        self.reset();
    }

    /// Read the byte at absolute address `addr`.
    pub fn read_byte(&self, addr: usize) -> (r: u8)
        requires
            self@.wf(),
            self@.contains(addr as int, 1),
        ensures
            r == self@.byte_at(addr as int),
    {
        self.mem[addr - self.base]
    }

    /// Write one byte at absolute address `addr`.
    pub fn write_byte(&mut self, addr: usize, value: u8)
        requires
            old(self)@.wf(),
            old(self)@.contains(addr as int, 1),
        ensures
            final(self)@.wf(),
            final(self)@.base == old(self)@.base,
            final(self)@.cursor == old(self)@.cursor,
            final(self)@.recycled == old(self)@.recycled,
            final(self)@.mem == old(self)@.mem.update(addr - old(self)@.base, value),
    {
        let off: usize = addr - self.base;
        self.mem[off] = value;
    }

    /// Write `value` over the `len` bytes starting at absolute address `addr`.
    pub fn fill_range(&mut self, addr: usize, len: usize, value: u8)
        requires
            old(self)@.wf(),
            old(self)@.contains(addr as int, len as int),
        ensures
            final(self)@.wf(),
            final(self)@.base == old(self)@.base,
            final(self)@.cursor == old(self)@.cursor,
            final(self)@.recycled == old(self)@.recycled,
            final(self)@.mem == filled_range(
                old(self)@.mem,
                addr - old(self)@.base,
                len as int,
                value,
            ),
    {
        let off: usize = addr - self.base;
        let mut i: usize = 0;
        while i < len
            invariant
                i <= len,
                off == addr - self@.base,
                off + len <= self@.mem.len(),
                self@.mem.len() <= usize::MAX,
                self@.base == old(self)@.base,
                self@.cursor == old(self)@.cursor,
                self@.recycled == old(self)@.recycled,
                self@.mem.len() == old(self)@.mem.len(),
                forall|j: int| off <= j < off + i ==> self@.mem[j] == value,
                forall|j: int|
                    0 <= j < self@.mem.len() && !(off <= j < off + i) ==> self@.mem[j]
                        == old(self)@.mem[j],
            decreases len - i,
        {
            self.mem[off + i] = value;
            i += 1;
        }
        proof {
            assert(self@.mem =~= filled_range(
                old(self)@.mem,
                addr - old(self)@.base,
                len as int,
                value,
            ));
        }
    }

    /// Copy out the `len` bytes starting at absolute address `addr`.
    pub fn read_bytes(&self, addr: usize, len: usize) -> (r: Vec<u8>)
        requires
            self@.wf(),
            self@.contains(addr as int, len as int),
        ensures
            r@ == Seq::new(len as nat, |j: int| self@.byte_at(addr + j)),
    {
        let mut r: Vec<u8> = Vec::new();
        let mut i: usize = 0;
        while i < len
            invariant
                i <= len,
                self@.wf(),
                self@.contains(addr as int, len as int),
                r@.len() == i,
                forall|j: int| 0 <= j < i ==> r@[j] == self@.byte_at(addr + j),
            decreases len - i,
        {
            let b = self.read_byte(addr + i);
            r.push(b);
            i += 1;
        }
        proof {
            assert(r@ =~= Seq::new(len as nat, |j: int| self@.byte_at(addr + j)));
        }
        r
    }

    /// Write `data` over the bytes starting at absolute address `addr`.
    pub fn write_bytes(&mut self, addr: usize, data: &Vec<u8>)
        requires
            old(self)@.wf(),
            old(self)@.contains(addr as int, data@.len() as int),
        ensures
            final(self)@.wf(),
            final(self)@.base == old(self)@.base,
            final(self)@.cursor == old(self)@.cursor,
            final(self)@.recycled == old(self)@.recycled,
            final(self)@.mem == overwritten(old(self)@.mem, addr - old(self)@.base, data@),
    {
        let off: usize = addr - self.base;
        let len: usize = data.len();
        let mut i: usize = 0;
        while i < len
            invariant
                i <= len,
                len == data@.len(),
                off == addr - self@.base,
                off + len <= self@.mem.len(),
                self@.mem.len() <= usize::MAX,
                self@.base == old(self)@.base,
                self@.cursor == old(self)@.cursor,
                self@.recycled == old(self)@.recycled,
                self@.mem.len() == old(self)@.mem.len(),
                forall|j: int| off <= j < off + i ==> self@.mem[j] == data@[j - off],
                forall|j: int|
                    0 <= j < self@.mem.len() && !(off <= j < off + i) ==> self@.mem[j]
                        == old(self)@.mem[j],
            decreases len - i,
        {
            self.mem[off + i] = data[i];
            i += 1;
        }
        proof {
            assert(self@.mem =~= overwritten(old(self)@.mem, addr - old(self)@.base, data@));
        }
    }
}

/// Two successful allocations taken in sequence from one engine never overlap:
/// the interval carved first ends at or before the one carved later begins.
/// `m1` is the engine state at the first request and `m2` the state at the
/// second, any time later; between them the cursor never moves backwards.
pub proof fn lemma_alloc_no_overlap(
    m1: BumpModel,
    s1: int,
    a1: int,
    m2: BumpModel,
    s2: int,
    a2: int,
)
    requires
        m1.wf(),
        m2.wf(),
        s1 > 0,
        a1 >= 1,
        s2 > 0,
        a2 >= 1,
        alloc_fits(m1, s1, a1),
        alloc_fits(m2, s2, a2),
        alloc_post(m1, s1, a1).cursor <= m2.cursor,
    ensures
        alloc_result(m1, s1, a1) == Some(align_up(m1.cursor, a1)),
        alloc_result(m2, s2, a2) == Some(align_up(m2.cursor, a2)),
        align_up(m1.cursor, a1) + s1 <= align_up(m2.cursor, a2),
{
    lemma_align_up(m1.cursor, a1);
    lemma_align_up(m2.cursor, a2);
}

/// Between resets the cursor never moves backwards, so `used` never shrinks
/// and `remaining` never grows across an allocation attempt.
pub proof fn lemma_alloc_monotonic(m: BumpModel, size: int, align: int)
    requires
        m.wf(),
        size > 0,
        align >= 1,
    ensures
        m.cursor <= alloc_post(m, size, align).cursor,
        m.used() <= alloc_post(m, size, align).used(),
        alloc_post(m, size, align).remaining() <= m.remaining(),
{
    lemma_align_up(m.cursor, align);
}

/// The recycled flag never returns to false: `new` starts it false, a reset
/// of either kind sets it forever, and an allocation attempt leaves it as it
/// was.
pub proof fn lemma_recycled_never_cleared(m: BumpModel, size: int, align: int)
    ensures
        alloc_post(m, size, align).recycled == m.recycled,
{
}

/// With alignment 1 two consecutive allocations are adjacent: the first
/// returns the cursor itself, and the second returns exactly `s1` past it.
pub proof fn lemma_alloc_sequential(m: BumpModel, s1: int, s2: int)
    requires
        m.wf(),
        s1 > 0,
        s2 > 0,
        alloc_fits(m, s1, 1),
        alloc_fits(alloc_post(m, s1, 1), s2, 1),
    ensures
        alloc_result(m, s1, 1) == Some(m.cursor),
        alloc_result(alloc_post(m, s1, 1), s2, 1) == Some(m.cursor + s1),
{
    lemma_align_up(m.cursor, 1);
    lemma_align_up(m.cursor + s1, 1);
}

} // verus!
