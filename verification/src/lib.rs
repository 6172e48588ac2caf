//! An arena allocator model for zero-knowledge proving workloads.
//!
//! Proof generation allocates in bounded bursts (witness vectors, polynomial
//! coefficient buffers, scratch space) that are released all at once between
//! proofs. This crate provides three cooperating bump arenas tailored to that
//! shape — a witness arena that zeroes on allocation and wipes on reset, a
//! polynomial arena with cache-line and page alignment presets, and a plain
//! scratch arena — plus a facade that routes ambient requests by size.
//!
//! Every region is held as an owned byte buffer addressed by an integer base,
//! so allocation, zeroing, wiping and copying are all verified down to the
//! byte contents. Reserving address space from the operating system is kept
//! outside the library, behind the same two-operation interface the arenas
//! are built over.

use vstd::prelude::*;

pub mod alignment;
pub mod arena;
pub mod bump;
pub mod platform;
pub mod polynomial;
pub mod witness;

verus! {

use vstd::pervasive::unreached;

use crate::alignment::{is_power_of_two, lemma_align_up};
use crate::arena::{ArenaManager, ArenaStats, ManagerModel, fresh_manager_model, reset_all_post};
use crate::bump::{BumpAlloc, BumpModel, alloc_post, alloc_result, filled_range, overwritten};
use crate::polynomial::PolynomialArena;
use crate::witness::WitnessArena;

/// Default capacity of the witness region: 128 MiB.
pub const WITNESS_ARENA_SIZE: usize = 128 * 1024 * 1024;

/// Default capacity of the polynomial region: 1 GiB.
pub const POLY_ARENA_SIZE: usize = 1024 * 1024 * 1024;

/// Default capacity of the scratch region: 256 MiB.
pub const SCRATCH_ARENA_SIZE: usize = 256 * 1024 * 1024;

/// Ambient requests strictly larger than this go to the polynomial arena.
pub const LARGE_ALLOC_THRESHOLD: usize = 1024 * 1024;

/// The byte written over the whole region by a secure wipe.
pub const SECURE_WIPE_PATTERN: u8 = 0x00;

/// If the facade's slot is populated, the manager in it is well formed.
pub open spec fn facade_wf(v: Option<ManagerModel>) -> bool {
    match v {
        Some(m) => m.wf(),
        None => true,
    }
}

/// The manager the facade works over once initialization is ensured: the one
/// already in the slot, or a fresh default-sized one on the first call.
pub open spec fn init_model(v: Option<ManagerModel>) -> ManagerModel {
    match v {
        Some(m) => m,
        None => fresh_manager_model(
            WITNESS_ARENA_SIZE as int,
            POLY_ARENA_SIZE as int,
            SCRATCH_ARENA_SIZE as int,
        ),
    }
}

/// Ambient routing: strictly by requested size.
pub open spec fn routes_to_polynomial(size: int) -> bool {
    size > LARGE_ALLOC_THRESHOLD as int
}

/// The manager state after an ambient allocation: the request lands in the
/// polynomial or the scratch arena by size alone; the witness arena is never
/// touched through the ambient surface.
pub open spec fn facade_alloc_post(m: ManagerModel, size: int, align: int) -> ManagerModel {
    if routes_to_polynomial(size) {
        ManagerModel {
            witness: m.witness,
            polynomial: alloc_post(m.polynomial, size, align),
            scratch: m.scratch,
        }
    } else {
        ManagerModel {
            witness: m.witness,
            polynomial: m.polynomial,
            scratch: alloc_post(m.scratch, size, align),
        }
    }
}

/// The address an ambient allocation returns, from the routed arena.
pub open spec fn facade_alloc_result(m: ManagerModel, size: int, align: int) -> Option<int> {
    if routes_to_polynomial(size) {
        alloc_result(m.polynomial, size, align)
    } else {
        alloc_result(m.scratch, size, align)
    }
}

/// The manager state after an ambient zeroed allocation: as after a plain
/// ambient allocation, with the returned interval's bytes zeroed.
pub open spec fn facade_alloc_zeroed_post(m: ManagerModel, size: int, align: int) -> ManagerModel {
    let after = facade_alloc_post(m, size, align);
    match facade_alloc_result(m, size, align) {
        Some(p) => if routes_to_polynomial(size) {
            ManagerModel {
                witness: after.witness,
                polynomial: BumpModel {
                    base: after.polynomial.base,
                    cursor: after.polynomial.cursor,
                    recycled: after.polynomial.recycled,
                    mem: filled_range(after.polynomial.mem, p - after.polynomial.base, size, 0u8),
                },
                scratch: after.scratch,
            }
        } else {
            ManagerModel {
                witness: after.witness,
                polynomial: after.polynomial,
                scratch: BumpModel {
                    base: after.scratch.base,
                    cursor: after.scratch.cursor,
                    recycled: after.scratch.recycled,
                    mem: filled_range(after.scratch.mem, p - after.scratch.base, size, 0u8),
                },
            }
        },
        None => after,
    }
}

/// The byte a manager holds at `addr`, in whichever region contains it.
pub open spec fn manager_byte_at(m: ManagerModel, addr: int) -> u8 {
    if m.witness.contains(addr, 1) {
        m.witness.byte_at(addr)
    } else if m.polynomial.contains(addr, 1) {
        m.polynomial.byte_at(addr)
    } else {
        m.scratch.byte_at(addr)
    }
}

/// The `len` bytes a manager holds starting at `addr`.
pub open spec fn manager_bytes(m: ManagerModel, addr: int, len: int) -> Seq<u8> {
    Seq::new(len as nat, |j: int| manager_byte_at(m, addr + j))
}

/// The address an ambient reallocation returns: the block itself when it does
/// not grow, otherwise whatever a fresh routed allocation returns.
pub open spec fn facade_realloc_result(
    m: ManagerModel,
    addr: int,
    old_size: int,
    align: int,
    new_size: int,
) -> Option<int> {
    if new_size <= old_size {
        Some(addr)
    } else {
        facade_alloc_result(m, new_size, align)
    }
}

/// The manager state after an ambient reallocation: unchanged when the block
/// does not grow; otherwise a fresh routed allocation holding a copy of the
/// old block's bytes, the old block left in place (a bump arena cannot free).
pub open spec fn facade_realloc_post(
    m: ManagerModel,
    addr: int,
    old_size: int,
    align: int,
    new_size: int,
) -> ManagerModel {
    if new_size <= old_size {
        m
    } else {
        let after = facade_alloc_post(m, new_size, align);
        match facade_alloc_result(m, new_size, align) {
            Some(q) => {
                let data = manager_bytes(m, addr, old_size);
                if routes_to_polynomial(new_size) {
                    ManagerModel {
                        witness: after.witness,
                        polynomial: BumpModel {
                            base: after.polynomial.base,
                            cursor: after.polynomial.cursor,
                            recycled: after.polynomial.recycled,
                            mem: overwritten(
                                after.polynomial.mem,
                                q - after.polynomial.base,
                                data,
                            ),
                        },
                        scratch: after.scratch,
                    }
                } else {
                    ManagerModel {
                        witness: after.witness,
                        polynomial: after.polynomial,
                        scratch: BumpModel {
                            base: after.scratch.base,
                            cursor: after.scratch.cursor,
                            recycled: after.scratch.recycled,
                            mem: overwritten(after.scratch.mem, q - after.scratch.base, data),
                        },
                    }
                }
            },
            None => after,
        }
    }
}

/// Ambient requests land in the polynomial arena exactly when they are over
/// the threshold and in the scratch arena otherwise; the witness arena never
/// moves through the ambient surface.
pub proof fn lemma_ambient_routing(m: ManagerModel, size: int, align: int)
    ensures
        routes_to_polynomial(size) <==> size > LARGE_ALLOC_THRESHOLD as int,
        facade_alloc_post(m, size, align).witness == m.witness,
        routes_to_polynomial(size) ==> facade_alloc_post(m, size, align).scratch == m.scratch
            && facade_alloc_post(m, size, align).polynomial == alloc_post(
            m.polynomial,
            size,
            align,
        ),
        !routes_to_polynomial(size) ==> facade_alloc_post(m, size, align).polynomial
            == m.polynomial && facade_alloc_post(m, size, align).scratch == alloc_post(
            m.scratch,
            size,
            align,
        ),
{
}

/// The process-wide allocator facade.
///
/// The slot starts empty; the first operation populates it with a manager
/// over default-sized regions, exactly once, and it is never cleared. Ambient
/// requests are routed by size: large ones to the polynomial arena, the rest
/// to scratch. Witness memory is only ever handed out through the explicit
/// witness handle.
pub struct NAlloc {
    arenas: Option<ArenaManager>,
}

impl View for NAlloc {
    type V = Option<ManagerModel>;

    closed spec fn view(&self) -> Option<ManagerModel> {
        match self.arenas {
            Some(m) => Some(m@),
            None => None,
        }
    }
}

impl NAlloc {
    /// A facade with an empty slot; the arenas come on first use.
    pub fn new() -> (r: NAlloc)
        ensures
            r@ is None,
    {
        NAlloc { arenas: None }
    }

    /// Populate the slot if it is still empty. The manager's storage is the
    /// facade's own; nothing is allocated through the facade itself.
    fn init_arenas(&mut self)
        requires
            facade_wf(old(self)@),
        ensures
            final(self)@ == Some(init_model(old(self)@)),
            facade_wf(final(self)@),
    {
        if self.arenas.is_none() {
            match ArenaManager::new() {
                Ok(m) => {
                    self.arenas = Some(m);
                },
                Err(_) => {
                    proof {
                        assert(false);
                    }
                },
            }
        }
    }

    /// The manager in the slot, populated on the way if need be.
    fn get_arenas(&mut self) -> (r: &mut ArenaManager)
        requires
            facade_wf(old(self)@),
        ensures
            (*r)@ == init_model(old(self)@),
            (*r)@.wf(),
            final(self)@ == Some((*final(r))@),
    {
        self.init_arenas();
        match &mut self.arenas {
            Some(m) => m,
            None => unreached(),
        }
    }

    /// Borrow the witness arena, for security-critical allocations.
    pub fn witness(&mut self) -> (r: &mut WitnessArena)
        requires
            facade_wf(old(self)@),
        ensures
            (*r)@ == init_model(old(self)@).witness,
            (*r)@.wf(),
            final(self)@ matches Some(m) && m == (ManagerModel {
                witness: (*final(r))@,
                polynomial: init_model(old(self)@).polynomial,
                scratch: init_model(old(self)@).scratch,
            }),
    {
        self.get_arenas().witness()
    }

    /// Borrow the polynomial arena, for FFT-friendly coefficient buffers.
    pub fn polynomial(&mut self) -> (r: &mut PolynomialArena)
        requires
            facade_wf(old(self)@),
        ensures
            (*r)@ == init_model(old(self)@).polynomial,
            (*r)@.wf(),
            final(self)@ matches Some(m) && m == (ManagerModel {
                witness: init_model(old(self)@).witness,
                polynomial: (*final(r))@,
                scratch: init_model(old(self)@).scratch,
            }),
    {
        self.get_arenas().polynomial()
    }

    /// Borrow the scratch engine, for temporary computation space.
    pub fn scratch(&mut self) -> (r: &mut BumpAlloc)
        requires
            facade_wf(old(self)@),
        ensures
            (*r)@ == init_model(old(self)@).scratch,
            (*r)@.wf(),
            final(self)@ matches Some(m) && m == (ManagerModel {
                witness: init_model(old(self)@).witness,
                polynomial: init_model(old(self)@).polynomial,
                scratch: (*final(r))@,
            }),
    {
        self.get_arenas().scratch()
    }

    /// Reset all arenas: the witness region is wiped before its reset.
    pub fn reset_all(&mut self)
        requires
            facade_wf(old(self)@),
        ensures
            final(self)@ == Some(reset_all_post(init_model(old(self)@))),
            facade_wf(final(self)@),
    {
        self.get_arenas().reset_all();
    }

    /// A snapshot of usage and capacity per arena.
    pub fn stats(&mut self) -> (r: ArenaStats)
        requires
            facade_wf(old(self)@),
        ensures
            final(self)@ == Some(init_model(old(self)@)),
            facade_wf(final(self)@),
            r.witness_used as int == init_model(old(self)@).witness.used(),
            r.witness_capacity as int == init_model(old(self)@).witness.capacity(),
            r.polynomial_used as int == init_model(old(self)@).polynomial.used(),
            r.polynomial_capacity as int == init_model(old(self)@).polynomial.capacity(),
            r.scratch_used as int == init_model(old(self)@).scratch.used(),
            r.scratch_capacity as int == init_model(old(self)@).scratch.capacity(),
            r.witness_used + r.polynomial_used + r.scratch_used <= usize::MAX,
            r.witness_capacity + r.polynomial_capacity + r.scratch_capacity <= usize::MAX,
    {
        self.get_arenas().stats()
    }

    /// Ambient allocation: routed by size, never into the witness arena.
    /// Returns `None` exactly when the routed arena is exhausted.
    pub fn allocate(&mut self, size: usize, align: usize) -> (r: Option<usize>)
        requires
            facade_wf(old(self)@),
            0 < size,
            0 < align,
            is_power_of_two(align as int),
        ensures
            facade_wf(final(self)@),
            final(self)@ == Some(
                facade_alloc_post(init_model(old(self)@), size as int, align as int),
            ),
            match r {
                Some(p) => {
                    &&& facade_alloc_result(init_model(old(self)@), size as int, align as int)
                        == Some(p as int)
                    &&& (p as int) % (align as int) == 0
                },
                None => facade_alloc_result(init_model(old(self)@), size as int, align as int)
                    is None,
            },
    {
        if size > LARGE_ALLOC_THRESHOLD {
            self.get_arenas().polynomial().allocate(size, align)
        } else {
            self.get_arenas().scratch().allocate(size, align)
        }
    }

    /// Ambient deallocation: a no-op. A bump arena reclaims memory only on
    /// reset.
    pub fn dealloc(&mut self, _addr: usize, _size: usize)
        ensures
            final(self)@ == old(self)@,
    {
    }

    /// Ambient zeroed allocation: allocate, then zero the interval. The
    /// zeroing is unconditional; a recycled generation holds stale bytes.
    pub fn alloc_zeroed(&mut self, size: usize, align: usize) -> (r: Option<usize>)
        requires
            facade_wf(old(self)@),
            0 < size,
            0 < align,
            is_power_of_two(align as int),
        ensures
            facade_wf(final(self)@),
            final(self)@ == Some(
                facade_alloc_zeroed_post(init_model(old(self)@), size as int, align as int),
            ),
            match r {
                Some(p) => facade_alloc_result(init_model(old(self)@), size as int, align as int)
                    == Some(p as int),
                None => facade_alloc_result(init_model(old(self)@), size as int, align as int)
                    is None,
            },
    {
        let r = self.allocate(size, align);
        match r {
            Some(p) => {
                proof {
                    let m0 = init_model(old(self)@);
                    if routes_to_polynomial(size as int) {
                        lemma_align_up(m0.polynomial.cursor, align as int);
                    } else {
                        lemma_align_up(m0.scratch.cursor, align as int);
                    }
                }
                if size > LARGE_ALLOC_THRESHOLD {
                    self.get_arenas().polynomial().fill_range(p, size, 0u8);
                } else {
                    self.get_arenas().scratch().fill_range(p, size, 0u8);
                }
                Some(p)
            },
            None => None,
        }
    }

    /// Ambient reallocation. A block that does not grow is returned as it is;
    /// a growing block gets a fresh routed allocation with the old bytes
    /// copied over, and the old block stays where it was.
    pub fn realloc(&mut self, addr: usize, old_size: usize, align: usize, new_size: usize) -> (r:
        Option<usize>)
        requires
            old(self)@ is Some,
            facade_wf(old(self)@),
            0 < old_size,
            0 < new_size,
            0 < align,
            is_power_of_two(align as int),
            init_model(old(self)@).polynomial.contains(addr as int, old_size as int)
                || init_model(old(self)@).scratch.contains(addr as int, old_size as int),
        ensures
            facade_wf(final(self)@),
            final(self)@ == Some(
                facade_realloc_post(
                    init_model(old(self)@),
                    addr as int,
                    old_size as int,
                    align as int,
                    new_size as int,
                ),
            ),
            match r {
                Some(p) => facade_realloc_result(
                    init_model(old(self)@),
                    addr as int,
                    old_size as int,
                    align as int,
                    new_size as int,
                ) == Some(p as int),
                None => facade_realloc_result(
                    init_model(old(self)@),
                    addr as int,
                    old_size as int,
                    align as int,
                    new_size as int,
                ) is None,
            },
    {
        if new_size <= old_size {
            return Some(addr);
        }
        // Snapshot the old block before the routed arenas move.
        let buf: Vec<u8> = match &self.arenas {
            Some(m) => {
                if addr >= m.scratch.base_ptr() {
                    m.scratch.read_bytes(addr, old_size)
                } else {
                    m.polynomial.read_bytes(addr, old_size)
                }
            },
            None => unreached(),
        };
        proof {
            assert(buf@ =~= manager_bytes(init_model(old(self)@), addr as int, old_size as int));
        }
        let r = self.allocate(new_size, align);
        match r {
            Some(q) => {
                proof {
                    let m0 = init_model(old(self)@);
                    if routes_to_polynomial(new_size as int) {
                        lemma_align_up(m0.polynomial.cursor, align as int);
                    } else {
                        lemma_align_up(m0.scratch.cursor, align as int);
                    }
                }
                if new_size > LARGE_ALLOC_THRESHOLD {
                    self.get_arenas().polynomial().write_bytes(q, &buf);
                } else {
                    self.get_arenas().scratch().write_bytes(q, &buf);
                }
                Some(q)
            },
            None => None,
        }
    }

    /// Read the byte at `addr` from whichever region holds it.
    pub fn read_byte(&self, addr: usize) -> (r: u8)
        requires
            self@ is Some,
            facade_wf(self@),
            init_model(self@).witness.contains(addr as int, 1) || init_model(
                self@,
            ).polynomial.contains(addr as int, 1) || init_model(self@).scratch.contains(
                addr as int,
                1,
            ),
        ensures
            r == manager_byte_at(init_model(self@), addr as int),
    {
        match &self.arenas {
            Some(m) => {
                if addr >= m.scratch.base_ptr() {
                    m.scratch.read_byte(addr)
                } else if addr >= m.polynomial.base_ptr() {
                    m.polynomial.read_byte(addr)
                } else {
                    m.witness.read_byte(addr)
                }
            },
            None => unreached(),
        }
    }

    /// Write one byte through the ambient surface; the address must lie in
    /// the polynomial or the scratch region, never in the witness region.
    pub fn write_byte(&mut self, addr: usize, value: u8)
        requires
            old(self)@ is Some,
            facade_wf(old(self)@),
            init_model(old(self)@).polynomial.contains(addr as int, 1) || init_model(
                old(self)@,
            ).scratch.contains(addr as int, 1),
        ensures
            facade_wf(final(self)@),
            final(self)@ matches Some(m) && m == (if init_model(old(self)@).polynomial.contains(
                addr as int,
                1,
            ) {
                ManagerModel {
                    witness: init_model(old(self)@).witness,
                    polynomial: BumpModel {
                        base: init_model(old(self)@).polynomial.base,
                        cursor: init_model(old(self)@).polynomial.cursor,
                        recycled: init_model(old(self)@).polynomial.recycled,
                        mem: init_model(old(self)@).polynomial.mem.update(
                            addr - init_model(old(self)@).polynomial.base,
                            value,
                        ),
                    },
                    scratch: init_model(old(self)@).scratch,
                }
            } else {
                ManagerModel {
                    witness: init_model(old(self)@).witness,
                    polynomial: init_model(old(self)@).polynomial,
                    scratch: BumpModel {
                        base: init_model(old(self)@).scratch.base,
                        cursor: init_model(old(self)@).scratch.cursor,
                        recycled: init_model(old(self)@).scratch.recycled,
                        mem: init_model(old(self)@).scratch.mem.update(
                            addr - init_model(old(self)@).scratch.base,
                            value,
                        ),
                    },
                }
            }),
    {
        match &mut self.arenas {
            Some(m) => {
                if addr >= m.scratch.base_ptr() {
                    m.scratch.write_byte(addr, value);
                } else {
                    m.polynomial.write_byte(addr, value);
                }
            },
            None => unreached(),
        }
    }
}

impl Default for NAlloc {
    /// The default facade: an empty slot, arenas on first use.
    fn default() -> (r: NAlloc)
        ensures
            r@ is None,
    {
        NAlloc::new()
    }
}

} // verus!
