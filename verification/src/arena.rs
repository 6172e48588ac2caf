//! The arena manager: one witness, one polynomial and one scratch engine,
//! installed over three disjoint regions laid out one after another.
//!
//! The manager is immutable after construction except for the engines'
//! cursors and recycled flags. Construction in this model always succeeds;
//! a refused reservation is the platform caller's to report, with the error
//! value from `platform`.

use vstd::prelude::*;

verus! {

use crate::SECURE_WIPE_PATTERN;
use crate::bump::{BumpAlloc, BumpModel};
use crate::platform::AllocFailed;
use crate::polynomial::PolynomialArena;
use crate::witness::WitnessArena;
use crate::{POLY_ARENA_SIZE, SCRATCH_ARENA_SIZE, WITNESS_ARENA_SIZE};

/// The address the first region starts at; page zero is never handed out.
pub const FIRST_REGION_BASE: usize = 4096;

/// Manages the three specialized arenas.
pub struct ArenaManager {
    pub witness: WitnessArena,
    pub polynomial: PolynomialArena,
    pub scratch: BumpAlloc,
}

/// The mathematical state of the three engines side by side.
#[verifier::ext_equal]
pub struct ManagerModel {
    pub witness: BumpModel,
    pub polynomial: BumpModel,
    pub scratch: BumpModel,
}

impl ManagerModel {
    /// All three engines are well formed and their regions are disjoint,
    /// laid out in witness, polynomial, scratch order.
    pub open spec fn wf(self) -> bool {
        &&& self.witness.wf()
        &&& self.polynomial.wf()
        &&& self.scratch.wf()
        &&& self.witness.limit() <= self.polynomial.base
        &&& self.polynomial.limit() <= self.scratch.base
    }
}

impl View for ArenaManager {
    type V = ManagerModel;

    open spec fn view(&self) -> ManagerModel {
        ManagerModel { witness: self.witness@, polynomial: self.polynomial@, scratch: self.scratch@ }
    }
}

/// A freshly installed engine: cursor at the base, not recycled, all bytes
/// zero, as newly mapped pages read.
pub open spec fn fresh_engine(base: int, size: int) -> BumpModel {
    BumpModel { base, cursor: base, recycled: false, mem: Seq::new(size as nat, |j: int| 0u8) }
}

/// A freshly constructed manager over regions of the three given sizes.
pub open spec fn fresh_manager_model(wsize: int, psize: int, ssize: int) -> ManagerModel {
    ManagerModel {
        witness: fresh_engine(FIRST_REGION_BASE as int, wsize),
        polynomial: fresh_engine(FIRST_REGION_BASE + wsize, psize),
        scratch: fresh_engine(FIRST_REGION_BASE + wsize + psize, ssize),
    }
}

/// The manager state after `reset_all`: the witness region wiped to the wipe
/// pattern, every cursor back at its base, every engine marked recycled, and
/// the polynomial and scratch bytes left as they were.
pub open spec fn reset_all_post(m: ManagerModel) -> ManagerModel {
    ManagerModel {
        witness: BumpModel {
            base: m.witness.base,
            cursor: m.witness.base,
            recycled: true,
            mem: Seq::new(m.witness.mem.len(), |j: int| SECURE_WIPE_PATTERN),
        },
        polynomial: BumpModel {
            base: m.polynomial.base,
            cursor: m.polynomial.base,
            recycled: true,
            mem: m.polynomial.mem,
        },
        scratch: BumpModel {
            base: m.scratch.base,
            cursor: m.scratch.base,
            recycled: true,
            mem: m.scratch.mem,
        },
    }
}

/// A zero-filled region of `len` bytes, as freshly mapped pages read.
fn zeroed_region(len: usize) -> (r: Vec<u8>)
    ensures
        r@ == Seq::new(len as nat, |j: int| 0u8),
{
    let r: Vec<u8> = vec![0u8; len];
    proof {
        assert(r@ =~= Seq::new(len as nat, |j: int| 0u8));
    }
    r
}

impl ArenaManager {
    /// Construct a manager over regions of the three given sizes.
    pub fn with_sizes(witness_size: usize, poly_size: usize, scratch_size: usize) -> (r: Result<
        ArenaManager,
        AllocFailed,
    >)
        requires
            0 < witness_size,
            0 < poly_size,
            0 < scratch_size,
            FIRST_REGION_BASE + witness_size + poly_size + scratch_size <= usize::MAX,
        ensures
            r matches Ok(m) && m@ == fresh_manager_model(
                witness_size as int,
                poly_size as int,
                scratch_size as int,
            ) && m@.wf(),
    {
        let wbase: usize = FIRST_REGION_BASE;
        let pbase: usize = wbase + witness_size;
        let sbase: usize = pbase + poly_size;
        let w = BumpAlloc::new(wbase, zeroed_region(witness_size));
        let p = BumpAlloc::new(pbase, zeroed_region(poly_size));
        let s = BumpAlloc::new(sbase, zeroed_region(scratch_size));
        let m = ArenaManager {
            witness: WitnessArena::new(w),
            polynomial: PolynomialArena::new(p),
            scratch: s,
        };
        proof {
            assert(m@ =~= fresh_manager_model(
                witness_size as int,
                poly_size as int,
                scratch_size as int,
            ));
        }
        Ok(m)
    }

    /// Construct a manager with the default region sizes.
    pub fn new() -> (r: Result<ArenaManager, AllocFailed>)
        ensures
            r matches Ok(m) && m@ == fresh_manager_model(
                WITNESS_ARENA_SIZE as int,
                POLY_ARENA_SIZE as int,
                SCRATCH_ARENA_SIZE as int,
            ) && m@.wf(),
    {
        Self::with_sizes(WITNESS_ARENA_SIZE, POLY_ARENA_SIZE, SCRATCH_ARENA_SIZE)
    }

    /// Borrow the witness arena.
    pub fn witness(&mut self) -> (r: &mut WitnessArena)
        ensures
            *r == old(self).witness,
            final(self).witness == *final(r),
            final(self).polynomial == old(self).polynomial,
            final(self).scratch == old(self).scratch,
    {
        &mut self.witness
    }

    /// Borrow the polynomial arena.
    pub fn polynomial(&mut self) -> (r: &mut PolynomialArena)
        ensures
            *r == old(self).polynomial,
            final(self).polynomial == *final(r),
            final(self).witness == old(self).witness,
            final(self).scratch == old(self).scratch,
    {
        &mut self.polynomial
    }

    /// Borrow the scratch engine.
    pub fn scratch(&mut self) -> (r: &mut BumpAlloc)
        ensures
            *r == old(self).scratch,
            final(self).scratch == *final(r),
            final(self).witness == old(self).witness,
            final(self).polynomial == old(self).polynomial,
    {
        &mut self.scratch
    }

    /// Reset all three arenas: the witness region is wiped before its reset,
    /// the other two keep their bytes.
    pub fn reset_all(&mut self)
        requires
            old(self)@.wf(),
        ensures
            final(self)@.wf(),
            final(self)@ == reset_all_post(old(self)@),
    {
        self.witness.secure_wipe();
        self.polynomial.reset();
        self.scratch.reset();
        proof {
            assert(self@ =~= reset_all_post(old(self)@));
        }
    }

    /// A snapshot of usage and capacity per arena.
    pub fn stats(&self) -> (r: ArenaStats)
        requires
            self@.wf(),
        ensures
            r.witness_used as int == self@.witness.used(),
            r.witness_capacity as int == self@.witness.capacity(),
            r.polynomial_used as int == self@.polynomial.used(),
            r.polynomial_capacity as int == self@.polynomial.capacity(),
            r.scratch_used as int == self@.scratch.used(),
            r.scratch_capacity as int == self@.scratch.capacity(),
            r.witness_used + r.polynomial_used + r.scratch_used <= usize::MAX,
            r.witness_capacity + r.polynomial_capacity + r.scratch_capacity <= usize::MAX,
    {
        ArenaStats {
            witness_used: self.witness.used(),
            witness_capacity: self.witness.capacity(),
            polynomial_used: self.polynomial.used(),
            polynomial_capacity: self.polynomial.capacity(),
            scratch_used: self.scratch.used(),
            scratch_capacity: self.scratch.capacity(),
        }
    }
}

/// Usage and capacity of each arena, in bytes.
#[derive(Debug, Clone, Copy)]
pub struct ArenaStats {
    pub witness_used: usize,
    pub witness_capacity: usize,
    pub polynomial_used: usize,
    pub polynomial_capacity: usize,
    pub scratch_used: usize,
    pub scratch_capacity: usize,
}

impl ArenaStats {
    /// Total memory currently in use across the three arenas.
    pub fn total_used(&self) -> (r: usize)
        requires
            self.witness_used + self.polynomial_used + self.scratch_used <= usize::MAX,
        ensures
            r == self.witness_used + self.polynomial_used + self.scratch_used,
    {
        self.witness_used + self.polynomial_used + self.scratch_used
    }

    /// Total capacity across the three arenas.
    pub fn total_capacity(&self) -> (r: usize)
        requires
            self.witness_capacity + self.polynomial_capacity + self.scratch_capacity <= usize::MAX,
        ensures
            r == self.witness_capacity + self.polynomial_capacity + self.scratch_capacity,
    {
        self.witness_capacity + self.polynomial_capacity + self.scratch_capacity
    }
}

} // verus!
